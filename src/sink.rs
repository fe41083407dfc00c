use vstd::prelude::*;

verus! {

/// The signal handed back to the generation loop after each token.
#[derive(PartialEq, Eq, Structural, Debug, Clone, Copy)]
pub enum Feedback {
    Continue,
    Halt,
}

/// One event of the generation loop.
pub enum TokenEvent {
    /// A token of the prompt, echoed back.
    PromptToken(String),
    /// A newly inferred token.
    InferredToken(String),
    /// Any other event; it carries no text.
    Other,
}

/// The text that an event puts on the output, if any.
pub open spec fn fragment_spec(event: TokenEvent) -> Option<Seq<char>> {
    match event {
        TokenEvent::PromptToken(t) => Some(t@),
        TokenEvent::InferredToken(t) => Some(t@),
        TokenEvent::Other => None,
    }
}

/// The text that an event puts on the output: a token's text, else nothing.
pub fn fragment(event: &TokenEvent) -> (r: Option<&str>)
    ensures
        match fragment_spec(*event) {
            Some(t) => r matches Some(s) && s@ == t,
            None => r is None,
        },
{
    match event {
        TokenEvent::PromptToken(t) => Some(t.as_str()),
        TokenEvent::InferredToken(t) => Some(t.as_str()),
        TokenEvent::Other => None,
    }
}

/// Couples the generation loop to the output. For each token the caller
/// writes its text and flushes, then reports whether both succeeded; the sink
/// answers `Continue`, or `Halt` on the first failure, after which it takes no
/// more tokens. A failure is never passed on as an error.
pub struct Sink {
    writes: u64,
    halted: bool,
}

impl Sink {
    /// The number of tokens written and flushed so far.
    pub closed spec fn written(&self) -> nat {
        self.writes as nat
    }

    /// Whether a failed write has stopped the stream.
    pub closed spec fn stopped(&self) -> bool {
        self.halted
    }

    /// A sink that has written nothing.
    pub fn new() -> (r: Sink)
        ensures
            r.written() == 0,
            !r.stopped(),
    {
        Sink { writes: 0, halted: false }
    }

    /// The number of tokens written and flushed so far.
    pub fn writes(&self) -> (r: u64)
        ensures
            r == self.written(),
    {
        self.writes
    }

    /// Whether a failed write has stopped the stream.
    pub fn is_halted(&self) -> (r: bool)
        ensures
            r == self.stopped(),
    {
        self.halted
    }

    /// Records the outcome of writing and flushing one token's text:
    /// `delivered` is true when both succeeded.
    pub fn record(&mut self, delivered: bool) -> (r: Feedback)
        requires
            !old(self).stopped(),
            old(self).written() < u64::MAX,
        ensures
            delivered ==> r == Feedback::Continue && final(self).written() == old(self).written() + 1
                && !final(self).stopped(),
            !delivered ==> r == Feedback::Halt && final(self).written() == old(self).written()
                && final(self).stopped(),
    {
        if delivered {
            self.writes = self.writes + 1;
            Feedback::Continue
        } else {
            self.halted = true;
            Feedback::Halt
        }
    }
}

} // verus!
