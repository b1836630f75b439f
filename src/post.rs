//! The records that the demonstration endpoints exchange.
use vstd::prelude::*;
use vstd::string::StringExecFns;

verus! {

/// A stored post.
#[derive(Debug, Clone)]
pub struct Post {
    pub id: u64,
    pub title: String,
    pub body: String,
}

/// A prompt and, once produced, its completion.
#[derive(Debug, Clone)]
pub struct Post2 {
    pub prompt: String,
    pub generated: Option<String>,
}

pub open spec fn post_title() -> Seq<char> {
    "Hello, Warp!"@
}

pub open spec fn post_body() -> Seq<char> {
    "This is a post about Warp."@
}

pub open spec fn canned_completion() -> Seq<char> {
    "This is a generated post from prompt = {&self.prompt}."@
}

impl Post {
    /// The fixed post served under the given id.
    pub fn fixed(id: u64) -> (r: Post)
        ensures
            r.id == id,
            r.title@ == post_title(),
            r.body@ == post_body(),
    {
        proof {
            reveal_strlit("Hello, Warp!");
            reveal_strlit("This is a post about Warp.");
        }
        Post {
            id,
            title: String::from_str("Hello, Warp!"),
            body: String::from_str("This is a post about Warp."),
        }
    }
}

impl Post2 {
    /// A prompt with no completion yet.
    pub fn new(prompt: String) -> (r: Post2)
        ensures
            r.prompt@ == prompt@,
            r.generated is None,
    {
        Post2 { prompt, generated: None }
    }

    /// The same prompt with the canned completion filled in.
    pub fn generate(&self) -> (r: Post2)
        ensures
            r.prompt@ == self.prompt@,
            r.generated is Some,
            r.generated.unwrap()@ == canned_completion(),
    {
        proof {
            reveal_strlit("This is a generated post from prompt = {&self.prompt}.");
        }
        let generated = String::from_str("This is a generated post from prompt = {&self.prompt}.");
        Post2 { prompt: String::from_str(self.prompt.as_str()), generated: Some(generated) }
    }
}

} // verus!
