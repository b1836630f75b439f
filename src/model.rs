//! Model variants: their instruction templates, end-of-text markers and where
//! their artifacts are published.
use vstd::prelude::*;
use vstd::string::StringExecFns;

verus! {

/// The model variants the service can load.
#[derive(Clone, Copy, Debug, PartialEq, Eq)]
pub enum Which {
    W2_0_5b,
    W2_1_5b,
    W2_7b,
    W2_72b,
    DeepseekR1Qwen7B,
    W25_14b,
    W25_14bQ4,
    W25_14bQ8,
}

/// The text placed before the user's prompt.
pub open spec fn template_head(w: Which) -> Seq<char> {
    match w {
        Which::DeepseekR1Qwen7B => "<｜User｜>"@,
        _ => "<|im_start|>user\n"@,
    }
}

/// The text placed after the user's prompt.
pub open spec fn template_tail(w: Which) -> Seq<char> {
    match w {
        Which::DeepseekR1Qwen7B => "<｜Assistant｜>"@,
        _ => "<|im_end|>\n<|im_start|>assistant\n"@,
    }
}

/// The vocabulary entry that ends a completion.
pub open spec fn end_marker(w: Which) -> Seq<char> {
    match w {
        Which::DeepseekR1Qwen7B => "<｜end▁of▁sentence｜>"@,
        _ => "<|im_end|>"@,
    }
}

/// Wraps a prompt into the instruction template of the model variant.
pub fn format_prompt(which: Which, prompt: &str) -> (r: String)
    ensures
        r@ == template_head(which) + prompt@ + template_tail(which),
{
    proof {
        reveal_strlit("<｜User｜>");
        reveal_strlit("<|im_start|>user\n");
        reveal_strlit("<｜Assistant｜>");
        reveal_strlit("<|im_end|>\n<|im_start|>assistant\n");
    }
    let (head, tail) = match which {
        Which::DeepseekR1Qwen7B => ("<｜User｜>", "<｜Assistant｜>"),
        _ => ("<|im_start|>user\n", "<|im_end|>\n<|im_start|>assistant\n"),
    };
    let mut r = String::from_str(head);
    r.append(prompt);
    r.append(tail);
    r
}

/// The end-of-text marker of the model variant, as a vocabulary entry.
pub fn eos_token(which: Which) -> (r: &'static str)
    ensures
        r@ == end_marker(which),
{
    proof {
        reveal_strlit("<｜end▁of▁sentence｜>");
        reveal_strlit("<|im_end|>");
    }
    match which {
        Which::DeepseekR1Qwen7B => "<｜end▁of▁sentence｜>",
        _ => "<|im_end|>",
    }
}

/// The registry repository that holds the tokenizer of a variant.
pub open spec fn tokenizer_repo_of(w: Which) -> Seq<char> {
    match w {
        Which::W2_0_5b => "Qwen/Qwen2-0.5B-Instruct"@,
        Which::W2_1_5b => "Qwen/Qwen2-1.5B-Instruct"@,
        Which::W2_7b => "Qwen/Qwen2-7B-Instruct"@,
        Which::W2_72b => "Qwen/Qwen2-72B-Instruct"@,
        Which::DeepseekR1Qwen7B => "deepseek-ai/DeepSeek-R1-Distill-Qwen-7B"@,
        _ => "Qwen/Qwen2.5-Coder-14B-Instruct"@,
    }
}

/// The registry repository of a variant's tokenizer.
pub fn tokenizer_repo(which: Which) -> (r: &'static str)
    ensures
        r@ == tokenizer_repo_of(which),
{
    proof {
        reveal_strlit("Qwen/Qwen2-0.5B-Instruct");
        reveal_strlit("Qwen/Qwen2-1.5B-Instruct");
        reveal_strlit("Qwen/Qwen2-7B-Instruct");
        reveal_strlit("Qwen/Qwen2-72B-Instruct");
        reveal_strlit("deepseek-ai/DeepSeek-R1-Distill-Qwen-7B");
        reveal_strlit("Qwen/Qwen2.5-Coder-14B-Instruct");
    }
    match which {
        Which::W2_0_5b => "Qwen/Qwen2-0.5B-Instruct",
        Which::W2_1_5b => "Qwen/Qwen2-1.5B-Instruct",
        Which::W2_7b => "Qwen/Qwen2-7B-Instruct",
        Which::W2_72b => "Qwen/Qwen2-72B-Instruct",
        Which::DeepseekR1Qwen7B => "deepseek-ai/DeepSeek-R1-Distill-Qwen-7B",
        Which::W25_14b | Which::W25_14bQ4 | Which::W25_14bQ8 => "Qwen/Qwen2.5-Coder-14B-Instruct",
    }
}

/// Where the quantized weights of a variant are published: repository, file
/// name and revision.
pub struct WeightsSource {
    pub repo: &'static str,
    pub filename: &'static str,
    pub revision: &'static str,
}

pub open spec fn weights_repo_of(w: Which) -> Seq<char> {
    match w {
        Which::W2_0_5b => "Qwen/Qwen2-0.5B-Instruct-GGUF"@,
        Which::W2_1_5b => "Qwen/Qwen2-1.5B-Instruct-GGUF"@,
        Which::W2_7b => "Qwen/Qwen2-7B-Instruct-GGUF"@,
        Which::W2_72b => "Qwen/Qwen2-72B-Instruct-GGUF"@,
        Which::DeepseekR1Qwen7B => "unsloth/DeepSeek-R1-Distill-Qwen-7B-GGUF"@,
        _ => "Qwen/Qwen2.5-Coder-14B-Instruct-GGUF"@,
    }
}

pub open spec fn weights_file_of(w: Which) -> Seq<char> {
    match w {
        Which::W2_0_5b => "qwen2-0_5b-instruct-q4_0.gguf"@,
        Which::W2_1_5b => "qwen2-1_5b-instruct-q4_0.gguf"@,
        Which::W2_7b => "qwen2-7b-instruct-q4_0.gguf"@,
        Which::W2_72b => "qwen2-72b-instruct-q4_0.gguf"@,
        Which::DeepseekR1Qwen7B => "DeepSeek-R1-Distill-Qwen-7B-Q4_K_M.gguf"@,
        Which::W25_14bQ4 => "qwen2.5-coder-14b-instruct-q4_0.gguf"@,
        Which::W25_14bQ8 => "qwen2.5-coder-14b-instruct-q8_0.gguf"@,
        Which::W25_14b => "qwen2.5-coder-14b-instruct-fp16.gguf"@,
    }
}

/// Where the weights of a variant are published.
pub fn weights_source(which: Which) -> (r: WeightsSource)
    ensures
        r.repo@ == weights_repo_of(which),
        r.filename@ == weights_file_of(which),
        r.revision@ == "main"@,
{
    proof {
        reveal_strlit("Qwen/Qwen2-0.5B-Instruct-GGUF");
        reveal_strlit("Qwen/Qwen2-1.5B-Instruct-GGUF");
        reveal_strlit("Qwen/Qwen2-7B-Instruct-GGUF");
        reveal_strlit("Qwen/Qwen2-72B-Instruct-GGUF");
        reveal_strlit("unsloth/DeepSeek-R1-Distill-Qwen-7B-GGUF");
        reveal_strlit("Qwen/Qwen2.5-Coder-14B-Instruct-GGUF");
        reveal_strlit("qwen2-0_5b-instruct-q4_0.gguf");
        reveal_strlit("qwen2-1_5b-instruct-q4_0.gguf");
        reveal_strlit("qwen2-7b-instruct-q4_0.gguf");
        reveal_strlit("qwen2-72b-instruct-q4_0.gguf");
        reveal_strlit("DeepSeek-R1-Distill-Qwen-7B-Q4_K_M.gguf");
        reveal_strlit("qwen2.5-coder-14b-instruct-q4_0.gguf");
        reveal_strlit("qwen2.5-coder-14b-instruct-q8_0.gguf");
        reveal_strlit("qwen2.5-coder-14b-instruct-fp16.gguf");
        reveal_strlit("main");
    }
    let (repo, filename) = match which {
        Which::W2_0_5b => ("Qwen/Qwen2-0.5B-Instruct-GGUF", "qwen2-0_5b-instruct-q4_0.gguf"),
        Which::W2_1_5b => ("Qwen/Qwen2-1.5B-Instruct-GGUF", "qwen2-1_5b-instruct-q4_0.gguf"),
        Which::W2_7b => ("Qwen/Qwen2-7B-Instruct-GGUF", "qwen2-7b-instruct-q4_0.gguf"),
        Which::W2_72b => ("Qwen/Qwen2-72B-Instruct-GGUF", "qwen2-72b-instruct-q4_0.gguf"),
        Which::DeepseekR1Qwen7B => (
            "unsloth/DeepSeek-R1-Distill-Qwen-7B-GGUF",
            "DeepSeek-R1-Distill-Qwen-7B-Q4_K_M.gguf",
        ),
        Which::W25_14bQ4 => (
            "Qwen/Qwen2.5-Coder-14B-Instruct-GGUF",
            "qwen2.5-coder-14b-instruct-q4_0.gguf",
        ),
        Which::W25_14bQ8 => (
            "Qwen/Qwen2.5-Coder-14B-Instruct-GGUF",
            "qwen2.5-coder-14b-instruct-q8_0.gguf",
        ),
        Which::W25_14b => (
            "Qwen/Qwen2.5-Coder-14B-Instruct-GGUF",
            "qwen2.5-coder-14b-instruct-fp16.gguf",
        ),
    };
    WeightsSource { repo, filename, revision: "main" }
}

} // verus!
