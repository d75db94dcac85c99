//! The loop that has a text edited until it parses.

use vstd::prelude::*;
use vstd::string::StringExecFns;
use crate::error::Error;
use crate::error::ErrorView;

verus! {

/// A value with a canonical text form that can be read back from text.
///
/// The library asks nothing of an implementation beyond these signatures:
/// what [`edited`] does with a text is stated for every result that
/// `parse` can give.
pub trait Content: Sized {
    /// Writes the value out in its canonical text form.
    fn render(&self) -> String;

    /// Reads a value from text, or says what is wrong with the text.
    fn parse(text: &str) -> Result<Self, String>;
}

/// The question asked after a text did not parse.
pub const RETRY_QUESTION: &'static str = "Try again (y/n)";

/// The text that precedes the parser's description in a complaint.
pub const PARSE_COMPLAINT: &'static str = "There was an error parsing content: ";

/// What the caller of the editing loop has to do next.
#[derive(Debug, PartialEq, Eq)]
pub enum EditStep<T, E> {
    /// Run an editor session on `text` and hand its outcome to [`edited`].
    Edit { text: String },
    /// Write `complaint` to the diagnostic stream, ask [`RETRY_QUESTION`]
    /// there, and hand the answer, with `text`, to [`answered`].
    Confirm { text: String, complaint: String },
    /// The loop is over: the edited text parsed to `content`.
    Done { content: T },
    /// The loop is over without a result.
    Failed { error: Error<E> },
}

/// The mathematical value of an [`EditStep`].
pub enum EditStepView<T, E> {
    Edit { text: Seq<char> },
    Confirm { text: Seq<char>, complaint: Seq<char> },
    Done { content: T },
    Failed { error: ErrorView<E> },
}

impl<T, E> View for EditStep<T, E> {
    type V = EditStepView<T, E>;

    open spec fn view(&self) -> EditStepView<T, E> {
        match self {
            EditStep::Edit { text } => EditStepView::Edit { text: text@ },
            EditStep::Confirm { text, complaint } => EditStepView::Confirm {
                text: text@,
                complaint: complaint@,
            },
            EditStep::Done { content } => EditStepView::Done { content: *content },
            EditStep::Failed { error } => EditStepView::Failed { error: error@ },
        }
    }
}

/// The outcome of an editor session as a mathematical value.
pub open spec fn session_view<E>(outcome: Result<String, Error<E>>) -> Result<
    Seq<char>,
    ErrorView<E>,
> {
    match outcome {
        Ok(text) => Ok(text@),
        Err(error) => Err(error@),
    }
}

/// The result of a parse as a mathematical value.
pub open spec fn parse_view<T>(result: Result<T, String>) -> Result<T, Seq<char>> {
    match result {
        Ok(content) => Ok(content),
        Err(why) => Err(why@),
    }
}

/// The step after an edited text was parsed. A text that parses ends the
/// loop with its value. One that does not is kept as the user left it, and
/// the user is asked whether to go on.
pub open spec fn step_after_parse<T, E>(
    text: Seq<char>,
    result: Result<T, Seq<char>>,
) -> EditStepView<T, E> {
    match result {
        Ok(content) => EditStepView::Done { content },
        Err(why) => EditStepView::Confirm { text, complaint: PARSE_COMPLAINT@ + why },
    }
}

/// The step after the user answered the retry question about `text`: on
/// yes the editor is opened on `text` as the user left it, on no the loop
/// ends as canceled, and a failure to read the answer ends the loop.
pub open spec fn step_after_answer<T, E>(text: Seq<char>, answer: Result<bool, E>) -> EditStepView<
    T,
    E,
> {
    match answer {
        Err(error) => EditStepView::Failed { error: ErrorView::Io(error) },
        Ok(true) => EditStepView::Edit { text },
        Ok(false) => EditStepView::Failed { error: ErrorView::UserCanceled },
    }
}

/// Starts the editing loop for `content`: the editor is opened on the text
/// that `content` renders to.
pub fn edit_proof_content_iteractively<T: Content, E>(content: &T) -> (step: EditStep<T, E>)
    ensures
        (step matches EditStep::Edit { text } && call_ensures(T::render, (content,), text)),
{
    EditStep::Edit { text: content.render() }
}

/// Continues the loop with the result of parsing the edited `text`.
pub fn parsed<T, E>(text: String, result: Result<T, String>) -> (step: EditStep<T, E>)
    ensures
        step@ == step_after_parse::<T, E>(text@, parse_view(result)),
{
    match result {
        Ok(content) => EditStep::Done { content },
        Err(why) => {
            let complaint = String::from_str(PARSE_COMPLAINT).concat(why.as_str());
            EditStep::Confirm { text, complaint }
        },
    }
}

/// Continues the loop with the outcome of the editor session that the last
/// [`EditStep::Edit`] asked for. A failed session ends the loop with its
/// failure; an edited text is parsed as a `T`, and [`parsed`] decides.
pub fn edited<T: Content, E>(outcome: Result<String, Error<E>>) -> (step: EditStep<T, E>)
    ensures
        (match outcome {
            Err(error) => step@ == (EditStepView::<T, E>::Failed { error: error@ }),
            Ok(text) => exists|source: &str, result: Result<T, String>|
                source@ == text@ && call_ensures(T::parse, (source,), result) && step@
                    == step_after_parse::<T, E>(text@, parse_view(result)),
        }),
{
    match outcome {
        Err(error) => EditStep::Failed { error },
        Ok(text) => {
            let result = T::parse(text.as_str());
            parsed(text, result)
        },
    }
}

/// Continues the loop with the answer to the question that the last
/// [`EditStep::Confirm`] asked about `text`.
pub fn answered<T, E>(text: String, answer: Result<bool, E>) -> (step: EditStep<T, E>)
    ensures
        step@ == step_after_answer::<T, E>(text@, answer),
{
    match answer {
        Err(error) => EditStep::Failed { error: Error::Io(error) },
        Ok(true) => EditStep::Edit { text },
        Ok(false) => EditStep::Failed { error: Error::UserCanceled },
    }
}

/// A text that parses ends the loop at once, with the value it parsed to
/// and without a question to the user, whatever the text was that the
/// editor was opened on.
pub proof fn lemma_valid_text_is_accepted<T, E>(text: Seq<char>, content: T)
    ensures
        step_after_parse::<T, E>(text, Ok(content)) == (EditStepView::<T, E>::Done { content }),
{
}

/// After a text that does not parse, a user who answers no ends the loop
/// as canceled: with no value, and with a failure that is none of input or
/// output.
pub proof fn lemma_decline_cancels<T, E>(text: Seq<char>, why: Seq<char>)
    ensures
        (step_after_parse::<T, E>(text, Err(why)) matches EditStepView::Confirm { text: kept, .. }
            && kept == text && step_after_answer::<T, E>(kept, Ok(false)) == (EditStepView::<
            T,
            E,
        >::Failed { error: ErrorView::UserCanceled })),
{
}

/// After a text that does not parse, a user who answers yes gets the
/// editor opened on that text as they left it; a text that then parses
/// ends the loop with its value.
pub proof fn lemma_retry_keeps_the_text<T, E>(
    text: Seq<char>,
    why: Seq<char>,
    corrected: Seq<char>,
    content: T,
)
    ensures
        (step_after_parse::<T, E>(text, Err(why)) matches EditStepView::Confirm { text: kept, .. }
            && step_after_answer::<T, E>(kept, Ok(true)) == (EditStepView::<T, E>::Edit { text })),
        step_after_parse::<T, E>(corrected, Ok(content)) == (EditStepView::<T, E>::Done {
            content,
        }),
{
}

/// One round of the loop as the user went through it: the text that the
/// editor left, what it parsed to, and the answer that the user gives to
/// the retry question if it is asked.
pub struct Round<T> {
    pub text: Seq<char>,
    pub result: Result<T, Seq<char>>,
    pub retry: bool,
}

impl<T> Round<T> {
    /// Whether the round ends in a text that does not parse and a user who
    /// wants to go on.
    pub open spec fn goes_on(self) -> bool {
        self.result is Err && self.retry
    }
}

/// The step that the loop is at after `rounds`, none of which met a failure
/// of input or output. A loop that is over takes no further round.
pub open spec fn after_rounds<T, E>(step: EditStepView<T, E>, rounds: Seq<Round<T>>) -> EditStepView<
    T,
    E,
>
    decreases rounds.len(),
{
    if rounds.len() == 0 {
        step
    } else {
        match step {
            EditStepView::Edit { .. } => {
                let round = rounds[0];
                let next = match step_after_parse::<T, E>(round.text, round.result) {
                    EditStepView::Confirm { text, .. } => step_after_answer::<T, E>(
                        text,
                        Ok(round.retry),
                    ),
                    decided => decided,
                };
                after_rounds(next, rounds.drop_first())
            },
            _ => step,
        }
    }
}

/// Whether every round before the round `last` went on, and `last` is a
/// round of `rounds`.
pub open spec fn reaches<T>(rounds: Seq<Round<T>>, last: int) -> bool {
    &&& 0 <= last < rounds.len()
    &&& forall|earlier: int| 0 <= earlier < last ==> (#[trigger] rounds[earlier]).goes_on()
}

/// What a loop that began on the text `begin` has come to after `rounds`:
/// the step `end`.
///
/// The loop has one way out for each of its two ends. It returns the value
/// of the first text that parses, if every round before that one went on;
/// it is canceled by the first no, if none of the texts up to there parsed.
/// Otherwise every round went on, and the editor is to be opened on the
/// text that the user left last, or on `begin` if there was no round.
pub open spec fn rounds_decide<T, E>(
    begin: Seq<char>,
    rounds: Seq<Round<T>>,
    end: EditStepView<T, E>,
) -> bool {
    match end {
        EditStepView::Done { content } => exists|last: int|
            #[trigger] reaches(rounds, last) && rounds[last].result == Ok::<T, Seq<char>>(content),
        EditStepView::Failed { error } => error == ErrorView::<E>::UserCanceled && exists|last: int|
            #[trigger] reaches(rounds, last) && rounds[last].result is Err && !rounds[last].retry,
        EditStepView::Edit { text } => {
            &&& forall|round: int|
                0 <= round < rounds.len() ==> (#[trigger] rounds[round]).goes_on()
            &&& text == if rounds.len() == 0 {
                begin
            } else {
                rounds.last().text
            }
        },
        EditStepView::Confirm { .. } => false,
    }
}

/// The loop ends at the first round that decides it, in the way that
/// [`rounds_decide`] says, however many rounds there are.
pub proof fn lemma_loop_ends_at_first_decision<T, E>(begin: Seq<char>, rounds: Seq<Round<T>>)
    ensures
        rounds_decide(
            begin,
            rounds,
            after_rounds(EditStepView::<T, E>::Edit { text: begin }, rounds),
        ),
    decreases rounds.len(),
{
    reveal_with_fuel(after_rounds, 2);
    if rounds.len() > 0 {
        let first = rounds[0];
        let rest = rounds.drop_first();
        assert forall|i: int| 0 <= i < rest.len() implies rest[i] == rounds[i + 1] by {}
        match first.result {
            Ok(content) => {
                let done = EditStepView::<T, E>::Done { content };
                assert(after_rounds(done, rest) == done);
                assert(reaches(rounds, 0));
            },
            Err(_) => {
                if first.retry {
                    lemma_loop_ends_at_first_decision::<T, E>(first.text, rest);
                    let end = after_rounds(EditStepView::<T, E>::Edit { text: first.text }, rest);
                    assert(after_rounds(EditStepView::<T, E>::Edit { text: begin }, rounds) == end);
                    match end {
                        EditStepView::Done { content } => {
                            let found = choose|last: int|
                                #[trigger] reaches(rest, last) && rest[last].result == Ok::<
                                    T,
                                    Seq<char>,
                                >(content);
                            lemma_reaches_after_first(rounds, found);
                        },
                        EditStepView::Failed { error } => {
                            let found = choose|last: int|
                                #[trigger] reaches(rest, last) && rest[last].result is Err
                                    && !rest[last].retry;
                            lemma_reaches_after_first(rounds, found);
                        },
                        EditStepView::Edit { text } => {
                            assert forall|round: int| 0 <= round < rounds.len() implies (
                            #[trigger] rounds[round]).goes_on() by {
                                if round > 0 {
                                    assert(rest[round - 1].goes_on());
                                }
                            }
                            if rest.len() > 0 {
                                assert(rest.last() == rounds.last());
                            }
                        },
                        EditStepView::Confirm { .. } => {},
                    }
                } else {
                    let canceled = EditStepView::<T, E>::Failed { error: ErrorView::UserCanceled };
                    assert(after_rounds(canceled, rest) == canceled);
                    assert(reaches(rounds, 0));
                }
            },
        }
    }
}

/// A round that the rounds after the first reach is reached by all the
/// rounds, if the first went on.
proof fn lemma_reaches_after_first<T>(rounds: Seq<Round<T>>, last: int)
    requires
        rounds.len() > 0,
        rounds[0].goes_on(),
        reaches(rounds.drop_first(), last),
    ensures
        reaches(rounds, last + 1),
        rounds[last + 1] == rounds.drop_first()[last],
{
    let rest = rounds.drop_first();
    assert forall|earlier: int| 0 <= earlier < last + 1 implies (#[trigger] rounds[earlier]).goes_on() by {
        if earlier > 0 {
            assert(rest[earlier - 1].goes_on());
        }
    }
}

} // verus!
