//! The yes-or-no question asked on the diagnostic stream.
//!
//! The caller writes the question, reads one line and hands it to
//! [`yes_or_no_was_y`]; it asks again for as long as the step it gets back
//! is [`PromptStep::Ask`]. There is no limit on the number of attempts.
//!
//! A reply is read with the white space at both of its ends set aside, so
//! that neither a line ending nor a blank typed by accident stands in the
//! way of an answer.

use vstd::prelude::*;
use vstd::string::StrSliceExecFns;

verus! {

/// What to do after a reply to the question has been read.
#[derive(Debug, PartialEq, Eq)]
pub enum PromptStep<E> {
    /// The reply was neither yes nor no: ask again.
    Ask,
    /// The question is answered.
    Answered { yes: bool },
    /// The reply could not be read.
    Failed { error: E },
}

/// Whether `c` is white space: a character with the Unicode property
/// `White_Space`. These are the controls from tab to carriage return, the
/// space, next line, the no-break space, the Ogham space mark, the spaces
/// from en quad to hair space, the line and the paragraph separator, the
/// narrow no-break space, the medium mathematical space and the
/// ideographic space.
pub open spec fn is_white_space(c: char) -> bool {
    ||| '\u{9}' <= c <= '\u{d}'
    ||| c == ' '
    ||| c == '\u{85}'
    ||| c == '\u{a0}'
    ||| c == '\u{1680}'
    ||| '\u{2000}' <= c <= '\u{200a}'
    ||| c == '\u{2028}'
    ||| c == '\u{2029}'
    ||| c == '\u{202f}'
    ||| c == '\u{205f}'
    ||| c == '\u{3000}'
}

/// `text` without the white space at its beginning.
pub open spec fn trimmed_start(text: Seq<char>) -> Seq<char>
    decreases text.len(),
{
    if text.len() > 0 && is_white_space(text[0]) {
        trimmed_start(text.drop_first())
    } else {
        text
    }
}

/// `text` without the white space at its end.
pub open spec fn trimmed_end(text: Seq<char>) -> Seq<char>
    decreases text.len(),
{
    if text.len() > 0 && is_white_space(text.last()) {
        trimmed_end(text.drop_last())
    } else {
        text
    }
}

/// `text` without the white space at both of its ends. White space between
/// other characters stays.
pub open spec fn trimmed(text: Seq<char>) -> Seq<char> {
    trimmed_end(trimmed_start(text))
}

/// What a reply means: `Some(true)` where the trimmed reply is `y` or `Y`,
/// `Some(false)` where it is `n` or `N`, and `None` for every other reply.
pub open spec fn answer_of(reply: Seq<char>) -> Option<bool> {
    let token = trimmed(reply);
    if token.len() != 1 {
        None
    } else if token[0] == 'y' || token[0] == 'Y' {
        Some(true)
    } else if token[0] == 'n' || token[0] == 'N' {
        Some(false)
    } else {
        None
    }
}

/// The step that follows an attempt to read a reply.
pub open spec fn prompt_step<E>(reply: Result<Seq<char>, E>) -> PromptStep<E> {
    match reply {
        Err(error) => PromptStep::Failed { error },
        Ok(text) => match answer_of(text) {
            Some(yes) => PromptStep::Answered { yes },
            None => PromptStep::Ask,
        },
    }
}

/// The reply as a sequence of characters, or the failure to read it.
pub open spec fn line_view<E>(line: Result<String, E>) -> Result<Seq<char>, E> {
    match line {
        Ok(text) => Ok(text@),
        Err(error) => Err(error),
    }
}

/// A text that begins with `start` characters of white space, and with no
/// more, is trimmed at its beginning by leaving those out.
pub proof fn lemma_trimmed_start(text: Seq<char>, start: int)
    requires
        0 <= start <= text.len(),
        forall|i: int| 0 <= i < start ==> is_white_space(#[trigger] text[i]),
        start == text.len() || !is_white_space(text[start]),
    ensures
        trimmed_start(text) == text.subrange(start, text.len() as int),
    decreases start,
{
    if start == 0 {
        assert(text.subrange(0, text.len() as int) =~= text);
    } else {
        let rest = text.drop_first();
        assert forall|i: int| 0 <= i < start - 1 implies is_white_space(#[trigger] rest[i]) by {
            assert(rest[i] == text[i + 1]);
        }
        lemma_trimmed_start(rest, start - 1);
        assert(rest.subrange(start - 1, rest.len() as int) =~= text.subrange(
            start,
            text.len() as int,
        ));
    }
}

/// A text that ends with white space from `end` on, and with no more, is
/// trimmed at its end by leaving that out.
pub proof fn lemma_trimmed_end(text: Seq<char>, end: int)
    requires
        0 <= end <= text.len(),
        forall|i: int| end <= i < text.len() ==> is_white_space(#[trigger] text[i]),
        end == 0 || !is_white_space(text[end - 1]),
    ensures
        trimmed_end(text) == text.subrange(0, end),
    decreases text.len() - end,
{
    if end == text.len() {
        assert(text.subrange(0, end) =~= text);
    } else {
        let rest = text.drop_last();
        lemma_trimmed_end(rest, end);
        assert(rest.subrange(0, end) =~= text.subrange(0, end));
    }
}

/// A character that is no white space, with nothing but white space
/// before and after it, is all that is left of the text when it is trimmed.
pub proof fn lemma_trimmed_to_one_character(before: Seq<char>, c: char, after: Seq<char>)
    requires
        forall|i: int| 0 <= i < before.len() ==> is_white_space(#[trigger] before[i]),
        forall|i: int| 0 <= i < after.len() ==> is_white_space(#[trigger] after[i]),
        !is_white_space(c),
    ensures
        trimmed(before + seq![c] + after) == seq![c],
{
    let text = before + seq![c] + after;
    let start = before.len() as int;
    let rest = text.subrange(start, text.len() as int);
    assert forall|i: int| 0 <= i < start implies is_white_space(#[trigger] text[i]) by {
        assert(text[i] == before[i]);
    }
    assert(text[start] == c);
    lemma_trimmed_start(text, start);
    assert forall|i: int| 1 <= i < rest.len() implies is_white_space(#[trigger] rest[i]) by {
        assert(rest[i] == after[i - 1]);
    }
    assert(rest[0] == c);
    lemma_trimmed_end(rest, 1);
    assert(rest.subrange(0, 1) =~= seq![c]);
}

/// A trimmed text neither begins nor ends with white space, and trimming it
/// again changes nothing.
pub proof fn lemma_trimmed_has_no_white_space_at_its_ends(text: Seq<char>)
    ensures
        trimmed(text).len() > 0 ==> !is_white_space(trimmed(text)[0]) && !is_white_space(
            trimmed(text).last(),
        ),
        trimmed(trimmed(text)) == trimmed(text),
{
    lemma_starts(text);
    lemma_ends(trimmed_start(text));
    lemma_end_keeps_start(trimmed_start(text));
}

/// What [`trimmed_start`] gives begins with no white space.
proof fn lemma_starts(text: Seq<char>)
    ensures
        trimmed_start(text).len() > 0 ==> !is_white_space(trimmed_start(text)[0]),
        trimmed_start(trimmed_start(text)) == trimmed_start(text),
    decreases text.len(),
{
    if text.len() > 0 && is_white_space(text[0]) {
        lemma_starts(text.drop_first());
    }
}

/// What [`trimmed_end`] gives ends with no white space.
proof fn lemma_ends(text: Seq<char>)
    ensures
        trimmed_end(text).len() > 0 ==> !is_white_space(trimmed_end(text).last()),
        trimmed_end(trimmed_end(text)) == trimmed_end(text),
    decreases text.len(),
{
    if text.len() > 0 && is_white_space(text.last()) {
        lemma_ends(text.drop_last());
    }
}

/// Trimming the end of a text that begins with no white space leaves its
/// beginning alone.
proof fn lemma_end_keeps_start(text: Seq<char>)
    requires
        text.len() > 0 ==> !is_white_space(text[0]),
    ensures
        trimmed_end(text).len() > 0 ==> trimmed_end(text)[0] == text[0],
        trimmed_start(trimmed_end(text)) == trimmed_end(text),
    decreases text.len(),
{
    if text.len() > 0 && is_white_space(text.last()) {
        let rest = text.drop_last();
        if rest.len() > 0 {
            assert(rest[0] == text[0]);
        }
        lemma_end_keeps_start(rest);
    }
}

/// Whether `c` is white space.
pub fn white_space(c: char) -> (yes: bool)
    ensures
        yes == is_white_space(c),
{
    ('\u{9}' <= c && c <= '\u{d}') || c == ' ' || c == '\u{85}' || c == '\u{a0}' || c
        == '\u{1680}' || ('\u{2000}' <= c && c <= '\u{200a}') || c == '\u{2028}' || c
        == '\u{2029}' || c == '\u{202f}' || c == '\u{205f}' || c == '\u{3000}'
}

/// Reads the answer from one line of input.
pub fn answer(reply: &str) -> (answer: Option<bool>)
    ensures
        answer == answer_of(reply@),
{
    let length = reply.unicode_len();
    let mut start: usize = 0;
    while start < length
        invariant
            start <= length,
            length == reply@.len(),
            forall|i: int| 0 <= i < start ==> is_white_space(#[trigger] reply@[i]),
        ensures
            start <= length,
            forall|i: int| 0 <= i < start ==> is_white_space(#[trigger] reply@[i]),
            start == length || !is_white_space(reply@[start as int]),
        decreases length - start,
    {
        if !white_space(reply.get_char(start)) {
            break ;
        }
        start = start + 1;
    }
    let mut end: usize = length;
    while end > start
        invariant
            start <= end <= length,
            length == reply@.len(),
            forall|i: int| end <= i < length ==> is_white_space(#[trigger] reply@[i]),
        ensures
            start <= end <= length,
            forall|i: int| end <= i < length ==> is_white_space(#[trigger] reply@[i]),
            end == start || !is_white_space(reply@[end - 1]),
        decreases end,
    {
        if !white_space(reply.get_char(end - 1)) {
            break ;
        }
        end = end - 1;
    }
    proof {
        let rest = reply@.subrange(start as int, length as int);
        lemma_trimmed_start(reply@, start as int);
        assert forall|i: int| end - start <= i < rest.len() implies is_white_space(
            #[trigger] rest[i],
        ) by {
            assert(rest[i] == reply@[i + start]);
        }
        lemma_trimmed_end(rest, end - start);
        assert(rest.subrange(0, end - start) =~= reply@.subrange(start as int, end as int));
        assert(trimmed(reply@) == reply@.subrange(start as int, end as int));
    }
    if end - start != 1 {
        return None;
    }
    let c = reply.get_char(start);
    if c == 'y' || c == 'Y' {
        Some(true)
    } else if c == 'n' || c == 'N' {
        Some(false)
    } else {
        None
    }
}

/// Decides what follows an attempt to read a reply: the answer, the
/// question once more, or the failure, which is never retried.
pub fn yes_or_no_was_y<E>(reply: Result<String, E>) -> (step: PromptStep<E>)
    ensures
        step == prompt_step(line_view(reply)),
{
    match reply {
        Err(error) => PromptStep::Failed { error },
        Ok(text) => match answer(text.as_str()) {
            Some(yes) => PromptStep::Answered { yes },
            None => PromptStep::Ask,
        },
    }
}

} // verus!
