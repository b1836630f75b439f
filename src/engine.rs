//! The decode loop of one generation request, as a state machine.
//!
//! A [`Decoder`] owns everything that belongs to one request: the prompt
//! tokens, the generated tokens and the text produced so far. It never touches
//! the transformer runtime, the sampler or the detokenizer itself: it names the
//! next thing to do ([`Decoder::action`]) and the driver reports what came of
//! it ([`Decoder::advance`]). The runtime's key/value cache is tracked as an
//! explicit `Empty` / `Populated` state: every request, whether it succeeds
//! or fails, ends by asking for exactly one cache reset, and is over only
//! once the driver reports that the reset was done.
use vstd::prelude::*;
use vstd::string::StringExecFns;
use crate::penalty::{copy_from, penalty_window, trailing};

verus! {

/// Why a request failed.
#[derive(Clone, Copy, Debug, PartialEq, Eq)]
pub enum GenerationError {
    /// The tokenizer could not encode the prompt.
    Encode,
    /// The detokenizer could not decode generated tokens.
    Decode,
    /// A forward pass of the transformer failed.
    Inference,
    /// The logits could not be sampled from.
    Sampling,
}

/// What the runtime's key/value cache holds for the current request.
#[derive(Clone, Copy, Debug, PartialEq, Eq)]
pub enum CacheState {
    Empty,
    Populated,
}

/// The per-request settings that the decode loop depends on.
#[derive(Clone, Copy, Debug, PartialEq, Eq)]
pub struct DecodeConfig {
    /// Number of tokens to generate; zero is treated as one.
    pub max_new_tokens: usize,
    /// How many trailing generated tokens the repeat penalty considers.
    pub repeat_last_n: usize,
    /// Whether the repeat penalty is in force (its factor differs from one).
    pub penalize: bool,
    /// Feed the prompt one token per forward pass instead of in one batch.
    pub split_prompt: bool,
    /// The end-of-text token: generation stops once it is sampled.
    pub stop_token: u32,
}

/// Where the decode loop stands.
#[derive(Clone, Copy, Debug, PartialEq, Eq)]
pub enum Phase {
    /// Processing the prompt; the field counts the prompt tokens already fed.
    Prompt(usize),
    /// Generating: the next forward pass takes the last generated token.
    Decode,
    /// The given sampled token waits to be handed to the detokenizer.
    Push(u32),
    /// The detokenizer's remaining buffer waits to be flushed.
    Flush,
    /// The cache waits to be reset; the field is the failure, if any.
    Reset(Option<GenerationError>),
    /// The request is over; the field is the failure, if any.
    Finished(Option<GenerationError>),
}

/// What the driver reports back after carrying out an action.
pub enum Event {
    /// A forward pass that was not to be sampled completed.
    Advanced,
    /// A forward pass completed and its logits gave this token.
    Sampled(u32),
    /// The detokenizer took the token and emitted this fragment, if any.
    Pushed(Option<String>),
    /// The detokenizer was flushed and emitted this fragment, if any.
    Flushed(Option<String>),
    /// The runtime's cache was reset.
    CacheCleared,
    /// The action failed.
    Failed(GenerationError),
}

/// A forward pass to run.
pub struct ForwardRequest {
    /// The token ids to feed.
    pub input: Vec<u32>,
    /// The cache position of the first of them.
    pub position: usize,
    /// The tokens whose logits the repeat penalty rescales, if it applies.
    pub penalty_window: Option<Vec<u32>>,
    /// Whether the resulting logits are sampled (otherwise they are dropped).
    pub sample: bool,
}

/// What the driver must do next.
pub enum Action {
    /// Run a forward pass (then, if asked, the penalty and the sampler).
    Forward(ForwardRequest),
    /// Hand this token to the detokenizer.
    Push(u32),
    /// Flush the detokenizer.
    Flush,
    /// Reset the runtime's key/value cache, on every layer.
    ResetCache,
    /// The request is over, with this failure if any.
    Finish(Option<GenerationError>),
}

pub enum EventModel {
    Advanced,
    Sampled(u32),
    Pushed(Option<Seq<char>>),
    Flushed(Option<Seq<char>>),
    CacheCleared,
    Failed(GenerationError),
}

pub enum ActionModel {
    Forward { input: Seq<u32>, position: nat, penalty_window: Option<Seq<u32>>, sample: bool },
    Push(u32),
    Flush,
    ResetCache,
    Finish(Option<GenerationError>),
}

pub open spec fn text_of(f: Option<String>) -> Option<Seq<char>> {
    match f {
        Some(s) => Some(s@),
        None => None,
    }
}

impl View for Event {
    type V = EventModel;

    open spec fn view(&self) -> EventModel {
        match self {
            Event::Advanced => EventModel::Advanced,
            Event::Sampled(t) => EventModel::Sampled(*t),
            Event::Pushed(f) => EventModel::Pushed(text_of(*f)),
            Event::Flushed(f) => EventModel::Flushed(text_of(*f)),
            Event::CacheCleared => EventModel::CacheCleared,
            Event::Failed(e) => EventModel::Failed(*e),
        }
    }
}

impl View for Action {
    type V = ActionModel;

    open spec fn view(&self) -> ActionModel {
        match self {
            Action::Forward(f) => ActionModel::Forward {
                input: f.input@,
                position: f.position as nat,
                penalty_window: match f.penalty_window {
                    Some(w) => Some(w@),
                    None => None,
                },
                sample: f.sample,
            },
            Action::Push(t) => ActionModel::Push(*t),
            Action::Flush => ActionModel::Flush,
            Action::ResetCache => ActionModel::ResetCache,
            Action::Finish(o) => ActionModel::Finish(*o),
        }
    }
}

/// The abstract state of a request.
pub struct DecoderModel {
    pub config: DecodeConfig,
    pub prompt: Seq<u32>,
    pub generated: Seq<u32>,
    pub text: Seq<char>,
    pub phase: Phase,
    pub cache: CacheState,
    /// How many times the cache has been reset during this request.
    pub resets: nat,
}

/// The number of tokens a request generates at most.
pub open spec fn budget(c: DecodeConfig) -> nat {
    if c.max_new_tokens == 0 { 1 } else { c.max_new_tokens as nat }
}

/// Whether the prompt is fed one token at a time.
pub open spec fn per_token(s: DecoderModel) -> bool {
    s.config.split_prompt && s.prompt.len() > 0
}

pub open spec fn fragment(f: Option<Seq<char>>) -> Seq<char> {
    match f {
        Some(x) => x,
        None => Seq::empty(),
    }
}

/// Whether a phase still holds the runtime checked out for decoding.
pub open spec fn in_progress(p: Phase) -> bool {
    match p {
        Phase::Prompt(_) | Phase::Decode | Phase::Push(_) | Phase::Flush => true,
        _ => false,
    }
}

/// The state in which a request starts.
pub open spec fn initial(config: DecodeConfig, prompt: Seq<u32>) -> DecoderModel {
    DecoderModel {
        config,
        prompt,
        generated: Seq::empty(),
        text: Seq::empty(),
        phase: Phase::Prompt(0),
        cache: CacheState::Empty,
        resets: 0,
    }
}

/// The action that a state asks for.
pub open spec fn action_of(s: DecoderModel) -> ActionModel {
    match s.phase {
        Phase::Prompt(fed) => if per_token(s) {
            ActionModel::Forward {
                input: seq![s.prompt[fed as int]],
                position: fed as nat,
                penalty_window: None,
                sample: fed + 1 == s.prompt.len(),
            }
        } else {
            ActionModel::Forward {
                input: s.prompt,
                position: 0,
                penalty_window: None,
                sample: true,
            }
        },
        Phase::Decode => ActionModel::Forward {
            input: seq![s.generated.last()],
            position: (s.prompt.len() + s.generated.len() - 1) as nat,
            penalty_window: if s.config.penalize {
                Some(trailing(s.generated, s.config.repeat_last_n as nat))
            } else {
                None
            },
            sample: true,
        },
        Phase::Push(t) => ActionModel::Push(t),
        Phase::Flush => ActionModel::Flush,
        Phase::Reset(_) => ActionModel::ResetCache,
        Phase::Finished(o) => ActionModel::Finish(o),
    }
}

/// The state after the driver reports `e`. A report that does not answer the
/// pending action leaves the state unchanged.
pub open spec fn next(s: DecoderModel, e: EventModel) -> DecoderModel {
    match e {
        EventModel::Failed(err) => if in_progress(s.phase) {
            DecoderModel { phase: Phase::Reset(Some(err)), ..s }
        } else {
            s
        },
        EventModel::Advanced => match s.phase {
            Phase::Prompt(fed) => if per_token(s) && fed + 1 < s.prompt.len() {
                DecoderModel { phase: Phase::Prompt((fed + 1) as usize), cache: CacheState::Populated, ..s }
            } else {
                s
            },
            _ => s,
        },
        EventModel::Sampled(t) => match s.phase {
            Phase::Prompt(fed) => if !per_token(s) || fed + 1 == s.prompt.len() {
                DecoderModel {
                    generated: s.generated.push(t),
                    phase: Phase::Push(t),
                    cache: CacheState::Populated,
                    ..s
                }
            } else {
                s
            },
            Phase::Decode => DecoderModel {
                generated: s.generated.push(t),
                phase: Phase::Push(t),
                ..s
            },
            _ => s,
        },
        EventModel::Pushed(f) => match s.phase {
            Phase::Push(t) => DecoderModel {
                text: s.text + fragment(f),
                phase: if t == s.config.stop_token || s.generated.len() >= budget(s.config) {
                    Phase::Flush
                } else {
                    Phase::Decode
                },
                ..s
            },
            _ => s,
        },
        EventModel::Flushed(f) => match s.phase {
            Phase::Flush => DecoderModel {
                text: s.text + fragment(f),
                phase: Phase::Reset(None),
                ..s
            },
            _ => s,
        },
        EventModel::CacheCleared => match s.phase {
            Phase::Reset(o) => DecoderModel {
                phase: Phase::Finished(o),
                cache: CacheState::Empty,
                resets: s.resets + 1,
                ..s
            },
            _ => s,
        },
    }
}

/// The invariant of every state a request can reach.
pub open spec fn wf(s: DecoderModel) -> bool {
    &&& s.prompt.len() + budget(s.config) <= usize::MAX
    &&& s.generated.len() <= budget(s.config)
    &&& match s.phase {
        Phase::Prompt(fed) => {
            &&& s.generated.len() == 0
            &&& s.resets == 0
            &&& if per_token(s) { fed < s.prompt.len() } else { fed == 0 }
        },
        Phase::Decode => {
            &&& 1 <= s.generated.len() < budget(s.config)
            &&& s.resets == 0
            &&& s.cache == CacheState::Populated
        },
        Phase::Push(t) => {
            &&& s.generated.len() >= 1
            &&& s.generated.last() == t
            &&& s.resets == 0
            &&& s.cache == CacheState::Populated
        },
        Phase::Flush | Phase::Reset(_) => s.resets == 0,
        Phase::Finished(_) => s.resets == 1 && s.cache == CacheState::Empty,
    }
}

/// The state reached from `s` when the driver reports `events` in order.
pub open spec fn run(s: DecoderModel, events: Seq<EventModel>) -> DecoderModel
    decreases events.len(),
{
    if events.len() == 0 {
        s
    } else {
        run(next(s, events[0]), events.drop_first())
    }
}

/// Every report keeps the invariant.
pub proof fn lemma_next_wf(s: DecoderModel, e: EventModel)
    requires
        wf(s),
    ensures
        wf(next(s, e)),
{
}

/// Every sequence of reports keeps the invariant, the settings and the prompt.
pub proof fn lemma_run_wf(s: DecoderModel, events: Seq<EventModel>)
    requires
        wf(s),
    ensures
        wf(run(s, events)),
        run(s, events).config == s.config,
        run(s, events).prompt == s.prompt,
    decreases events.len(),
{
    if events.len() > 0 {
        lemma_next_wf(s, events[0]);
        lemma_run_wf(next(s, events[0]), events.drop_first());
    }
}

/// Whatever the runtime, sampler and detokenizer report, a request is over
/// exactly when the cache has been reset once, and a request that is over
/// leaves the cache empty. This holds on success and on failure alike.
pub proof fn lemma_cache_reset_exactly_once(
    config: DecodeConfig,
    prompt: Seq<u32>,
    events: Seq<EventModel>,
)
    requires
        prompt.len() + budget(config) <= usize::MAX,
    ensures
        run(initial(config, prompt), events).resets <= 1,
        (run(initial(config, prompt), events).phase is Finished) <==> run(
            initial(config, prompt),
            events,
        ).resets == 1,
        (run(initial(config, prompt), events).phase is Finished) ==> run(
            initial(config, prompt),
            events,
        ).cache == CacheState::Empty,
{
    lemma_run_wf(initial(config, prompt), events);
}

/// A request that is over stays over: no later report leads to another
/// forward pass or another reset.
pub proof fn lemma_finished_is_final(s: DecoderModel, e: EventModel)
    requires
        s.phase is Finished,
    ensures
        next(s, e) == s,
        action_of(s) is Finish,
{
}

/// A failure while the runtime is in use leads straight to the cache reset,
/// and the request then ends with that failure and an empty cache.
pub proof fn lemma_failure_resets_cache(s: DecoderModel, err: GenerationError)
    requires
        wf(s),
        in_progress(s.phase),
    ensures
        action_of(next(s, EventModel::Failed(err))) == ActionModel::ResetCache,
        next(next(s, EventModel::Failed(err)), EventModel::CacheCleared).phase == Phase::Finished(
            Some(err),
        ),
        next(next(s, EventModel::Failed(err)), EventModel::CacheCleared).cache
            == CacheState::Empty,
{
}

/// No request generates more tokens than its budget.
pub proof fn lemma_generation_within_budget(
    config: DecodeConfig,
    prompt: Seq<u32>,
    events: Seq<EventModel>,
)
    requires
        prompt.len() + budget(config) <= usize::MAX,
    ensures
        run(initial(config, prompt), events).generated.len() <= budget(config),
{
    lemma_run_wf(initial(config, prompt), events);
}

/// With a budget of one token, the first sampled token is followed by the
/// flush: no forward pass is run beyond the prompt's.
pub proof fn lemma_single_token_budget(s: DecoderModel, t: u32, f: Option<Seq<char>>)
    requires
        wf(s),
        s.config.max_new_tokens <= 1,
        s.phase == Phase::Push(t),
    ensures
        next(s, EventModel::Pushed(f)).phase == Phase::Flush,
        action_of(next(s, EventModel::Pushed(f))) == ActionModel::Flush,
        next(s, EventModel::Pushed(f)).generated.len() == 1,
{
}

/// Once the stop token is sampled and detokenized, generation halts whatever
/// budget remains: the detokenizer is flushed, the flushed remainder is
/// appended to the text, and the next action is the cache reset.
pub proof fn lemma_stop_token_halts(s: DecoderModel, f: Option<Seq<char>>, g: Option<Seq<char>>)
    requires
        wf(s),
        s.phase == Phase::Push(s.config.stop_token),
    ensures
        next(s, EventModel::Pushed(f)).phase == Phase::Flush,
        action_of(next(s, EventModel::Pushed(f))) == ActionModel::Flush,
        next(s, EventModel::Pushed(f)).text == s.text + fragment(f),
        next(next(s, EventModel::Pushed(f)), EventModel::Flushed(g)).text == s.text + fragment(f)
            + fragment(g),
        next(next(s, EventModel::Pushed(f)), EventModel::Flushed(g)).generated == s.generated,
        action_of(next(next(s, EventModel::Pushed(f)), EventModel::Flushed(g)))
            == ActionModel::ResetCache,
{
}

/// The repeat penalty is only ever asked for while decoding, never when it is
/// switched off, and with a window size of zero it is handed no token at all.
pub proof fn lemma_penalty_window_of_forward(s: DecoderModel)
    requires
        wf(s),
    ensures
        match action_of(s) {
            ActionModel::Forward { penalty_window, .. } => {
                &&& (!s.config.penalize || !(s.phase is Decode)) ==> penalty_window is None
                &&& s.config.repeat_last_n == 0 ==> (penalty_window is None || penalty_window
                    == Some(Seq::<u32>::empty()))
            },
            _ => true,
        },
{
    crate::penalty::lemma_zero_window_is_empty(s.generated);
}

pub struct Decoder {
    config: DecodeConfig,
    prompt: Vec<u32>,
    generated: Vec<u32>,
    text: String,
    phase: Phase,
    cache: CacheState,
    resets: Ghost<nat>,
}

impl View for Decoder {
    type V = DecoderModel;

    closed spec fn view(&self) -> DecoderModel {
        DecoderModel {
            config: self.config,
            prompt: self.prompt@,
            generated: self.generated@,
            text: self.text@,
            phase: self.phase,
            cache: self.cache,
            resets: self.resets@,
        }
    }
}

fn append_fragment(text: &mut String, f: Option<String>)
    ensures
        final(text)@ == old(text)@ + fragment(text_of(f)),
{
    match f {
        Some(s) => text.append(s.as_str()),
        None => {
            assert(old(text)@ + fragment(text_of(f)) =~= old(text)@);
        },
    }
}

impl Decoder {
    /// Starts a request on the given prompt tokens, with an empty cache.
    /// Every cache position used must fit in `usize`.
    pub fn new(config: DecodeConfig, prompt: Vec<u32>) -> (d: Decoder)
        requires
            prompt@.len() + budget(config) <= usize::MAX,
        ensures
            d@ == initial(config, prompt@),
            wf(d@),
    {
        let d = Decoder {
            config,
            prompt,
            generated: Vec::new(),
            text: String::new(),
            phase: Phase::Prompt(0),
            cache: CacheState::Empty,
            resets: Ghost(0),
        };
        assert(d@.generated =~= Seq::<u32>::empty());
        assert(d@.text =~= Seq::<char>::empty());
        d
    }

    /// The action that the request asks for now.
    pub fn action(&self) -> (a: Action)
        requires
            wf(self@),
        ensures
            a@ == action_of(self@),
    {
        match self.phase {
            Phase::Prompt(fed) => {
                if self.config.split_prompt && self.prompt.len() > 0 {
                    let input = vec![self.prompt[fed]];
                    assert(input@ =~= seq![self@.prompt[fed as int]]);
                    Action::Forward(ForwardRequest {
                        input,
                        position: fed,
                        penalty_window: None,
                        sample: fed + 1 == self.prompt.len(),
                    })
                } else {
                    let input = copy_from(&self.prompt, 0);
                    assert(input@ =~= self@.prompt);
                    Action::Forward(ForwardRequest {
                        input,
                        position: 0,
                        penalty_window: None,
                        sample: true,
                    })
                }
            },
            Phase::Decode => {
                let n = self.generated.len();
                let input = vec![self.generated[n - 1]];
                assert(input@ =~= seq![self@.generated.last()]);
                let penalty_window = if self.config.penalize {
                    Some(penalty_window(&self.generated, self.config.repeat_last_n))
                } else {
                    None
                };
                Action::Forward(ForwardRequest {
                    input,
                    position: self.prompt.len() + n - 1,
                    penalty_window,
                    sample: true,
                })
            },
            Phase::Push(t) => Action::Push(t),
            Phase::Flush => Action::Flush,
            Phase::Reset(_) => Action::ResetCache,
            Phase::Finished(o) => Action::Finish(o),
        }
    }

    /// Takes the driver's report on the pending action.
    pub fn advance(&mut self, e: Event)
        requires
            wf(old(self)@),
        ensures
            final(self)@ == next(old(self)@, e@),
            wf(final(self)@),
    {
        let budget: usize = if self.config.max_new_tokens == 0 { 1 } else { self.config.max_new_tokens };
        match e {
            Event::Failed(err) => {
                match self.phase {
                    Phase::Prompt(_) | Phase::Decode | Phase::Push(_) | Phase::Flush => {
                        self.phase = Phase::Reset(Some(err));
                    },
                    _ => {},
                }
            },
            Event::Advanced => {
                match self.phase {
                    Phase::Prompt(fed) => {
                        if self.config.split_prompt && self.prompt.len() > 0 && fed + 1 < self.prompt.len() {
                            self.phase = Phase::Prompt(fed + 1);
                            self.cache = CacheState::Populated;
                        }
                    },
                    _ => {},
                }
            },
            Event::Sampled(t) => {
                match self.phase {
                    Phase::Prompt(fed) => {
                        if !(self.config.split_prompt && self.prompt.len() > 0) || fed + 1 == self.prompt.len() {
                            self.generated.push(t);
                            self.phase = Phase::Push(t);
                            self.cache = CacheState::Populated;
                        }
                    },
                    Phase::Decode => {
                        self.generated.push(t);
                        self.phase = Phase::Push(t);
                    },
                    _ => {},
                }
            },
            Event::Pushed(f) => {
                match self.phase {
                    Phase::Push(t) => {
                        append_fragment(&mut self.text, f);
                        if t == self.config.stop_token || self.generated.len() >= budget {
                            self.phase = Phase::Flush;
                        } else {
                            self.phase = Phase::Decode;
                        }
                    },
                    _ => {},
                }
            },
            Event::Flushed(f) => {
                match self.phase {
                    Phase::Flush => {
                        append_fragment(&mut self.text, f);
                        self.phase = Phase::Reset(None);
                    },
                    _ => {},
                }
            },
            Event::CacheCleared => {
                match self.phase {
                    Phase::Reset(o) => {
                        self.phase = Phase::Finished(o);
                        self.cache = CacheState::Empty;
                        self.resets = Ghost(self.resets@ + 1);
                    },
                    _ => {},
                }
            },
        }
    }

    /// The text produced so far: every emitted fragment, in token order.
    pub fn text(&self) -> (r: &String)
        ensures
            r@ == self@.text,
    {
        &self.text
    }

    /// The tokens generated so far.
    pub fn generated(&self) -> (r: &Vec<u32>)
        ensures
            r@ == self@.generated,
    {
        &self.generated
    }

    /// Where the request stands.
    pub fn phase(&self) -> (r: Phase)
        ensures
            r == self@.phase,
    {
        self.phase
    }

    /// What the runtime's cache holds for this request.
    pub fn cache(&self) -> (r: CacheState)
        ensures
            r == self@.cache,
    {
        self.cache
    }
}

} // verus!
