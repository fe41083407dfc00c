use vstd::prelude::*;

verus! {

/// The opening of the instruction template: a system-role block carrying the
/// fixed instruction, then the start of the user-role text.
pub const PROMPT_HEAD: &'static str = "[INST] <<SYS>>\nSummarize this\n<</SYS>>\n\n";

/// The closing of the instruction template, after the user's text.
pub const PROMPT_TAIL: &'static str = "\n[/INST]\n";

/// The prompt for `text`: the text verbatim between the template's two parts.
pub open spec fn prompt_of(text: Seq<char>) -> Seq<char> {
    PROMPT_HEAD@ + text + PROMPT_TAIL@
}

/// Wraps `text` in the instruction template. Total: every string is accepted,
/// and nothing in it is escaped or cut.
pub fn build_prompt(text: &str) -> (r: String)
    ensures
        r@ == prompt_of(text@),
{
    let mut prompt = String::from_str(PROMPT_HEAD);
    prompt.append(text);
    prompt.append(PROMPT_TAIL);
    prompt
}

/// The prompt holds the input text as one contiguous run, right after the
/// template's head, for every input (the empty one, and one that contains
/// the template's own delimiters, included).
pub proof fn prompt_contains_text(text: Seq<char>)
    ensures
        prompt_of(text).subrange(
            PROMPT_HEAD@.len() as int,
            (PROMPT_HEAD@.len() + text.len()) as int,
        ) == text,
        exists|i: int|
            0 <= i && i + text.len() <= prompt_of(text).len() && #[trigger] prompt_of(text).subrange(
                i,
                i + text.len(),
            ) == text,
{
    let p = prompt_of(text);
    let h = PROMPT_HEAD@.len() as int;
    assert(p.subrange(h, h + text.len()) =~= text);
}

/// Building a prompt has no hidden state: equal inputs give equal prompts.
pub proof fn prompt_is_deterministic(a: Seq<char>, b: Seq<char>)
    requires
        a == b,
    ensures
        prompt_of(a) == prompt_of(b),
{
}

} // verus!
