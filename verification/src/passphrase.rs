//! How a passphrase is obtained: from the override variable of the
//! environment where it is set, and from the terminal otherwise.
//!
//! The caller reads the variable named [`PASSPHRASE_VARIABLE`] and hands its
//! value to [`read_passphrase`] or [`read_new_passphrase`]. For as long as
//! the step it gets back is [`PassphraseStep::Ask`], it reads one line
//! without echo and hands it to [`entered`].

use vstd::prelude::*;

verus! {

/// The environment variable whose value, if set, is the passphrase.
pub const PASSPHRASE_VARIABLE: &'static str = "CREV_PASSPHRASE";

/// Written to the diagnostic stream when the passphrase comes from the
/// environment.
pub const OVERRIDE_NOTICE: &'static str = "Using passphrase set in CREV_PASSPHRASE\n";

/// Written to the diagnostic stream after two entries that differ.
pub const MISMATCH_NOTICE: &'static str = "\nPassphrases don't match, try again.\n";

/// The prompt for the passphrase of an existing key.
pub const UNLOCK_PROMPT: &'static str = "Enter passphrase to unlock: ";

/// The prompt for the first entry of a new passphrase.
pub const NEW_PROMPT: &'static str = "Enter new passphrase: ";

/// The prompt for the second entry of a new passphrase.
pub const REPEAT_PROMPT: &'static str = "Enter new passphrase again: ";

/// The entry that the dialogue is waiting for.
#[derive(Debug, PartialEq, Eq)]
pub enum Pending {
    /// The passphrase of an existing key.
    Unlock,
    /// The first entry of a new passphrase.
    New,
    /// The second entry of a new passphrase, which has to repeat `first`.
    Repeat { first: String },
}

/// The mathematical value of a [`Pending`].
pub enum PendingView {
    Unlock,
    New,
    Repeat { first: Seq<char> },
}

impl View for Pending {
    type V = PendingView;

    open spec fn view(&self) -> PendingView {
        match self {
            Pending::Unlock => PendingView::Unlock,
            Pending::New => PendingView::New,
            Pending::Repeat { first } => PendingView::Repeat { first: first@ },
        }
    }
}

impl PendingView {
    /// The prompt that asks for the entry.
    pub open spec fn prompt(self) -> Seq<char> {
        match self {
            PendingView::Unlock => UNLOCK_PROMPT@,
            PendingView::New => NEW_PROMPT@,
            PendingView::Repeat { .. } => REPEAT_PROMPT@,
        }
    }
}

impl Pending {
    /// The prompt that asks for the entry.
    pub fn prompt(&self) -> (text: &'static str)
        ensures
            text@ == self@.prompt(),
    {
        match self {
            Pending::Unlock => UNLOCK_PROMPT,
            Pending::New => NEW_PROMPT,
            Pending::Repeat { .. } => REPEAT_PROMPT,
        }
    }
}

/// What the caller of the dialogue has to do next.
#[derive(Debug, PartialEq, Eq)]
pub enum PassphraseStep<E> {
    /// The override is set. Write [`OVERRIDE_NOTICE`] to the diagnostic
    /// stream; the passphrase is the variable's value as it stands.
    Preset { passphrase: String },
    /// Write [`MISMATCH_NOTICE`] if `after_mismatch` is set, then the prompt
    /// of `pending`, to the diagnostic stream; read one line without echo and
    /// hand it, with `pending`, to [`entered`].
    Ask { after_mismatch: bool, pending: Pending },
    /// The dialogue is over: the user entered `passphrase`.
    Accepted { passphrase: String },
    /// The dialogue is over: the terminal could not be read.
    Failed { error: E },
}

/// The mathematical value of a [`PassphraseStep`].
pub enum PassphraseStepView<E> {
    Preset { passphrase: Seq<char> },
    Ask { after_mismatch: bool, pending: PendingView },
    Accepted { passphrase: Seq<char> },
    Failed { error: E },
}

impl<E> View for PassphraseStep<E> {
    type V = PassphraseStepView<E>;

    open spec fn view(&self) -> PassphraseStepView<E> {
        match self {
            PassphraseStep::Preset { passphrase } => PassphraseStepView::Preset {
                passphrase: passphrase@,
            },
            PassphraseStep::Ask { after_mismatch, pending } => PassphraseStepView::Ask {
                after_mismatch: *after_mismatch,
                pending: pending@,
            },
            PassphraseStep::Accepted { passphrase } => PassphraseStepView::Accepted {
                passphrase: passphrase@,
            },
            PassphraseStep::Failed { error } => PassphraseStepView::Failed { error: *error },
        }
    }
}

/// The value of the override variable as a mathematical value.
pub open spec fn preset_view(preset: Option<String>) -> Option<Seq<char>> {
    match preset {
        Some(value) => Some(value@),
        None => None,
    }
}

/// A line read from the terminal, or the failure to read it, as a
/// mathematical value.
pub open spec fn entry_view<E>(line: Result<String, E>) -> Result<Seq<char>, E> {
    match line {
        Ok(entry) => Ok(entry@),
        Err(error) => Err(error),
    }
}

/// The first step of a dialogue that would begin by waiting for `pending`:
/// a value of the override variable is the passphrase, whatever it holds,
/// and nothing is asked.
pub open spec fn first_step<E>(preset: Option<Seq<char>>, pending: PendingView) -> PassphraseStepView<
    E,
> {
    match preset {
        Some(passphrase) => PassphraseStepView::Preset { passphrase },
        None => PassphraseStepView::Ask { after_mismatch: false, pending },
    }
}

/// The step after an attempt to read the entry that `pending` waits for.
///
/// The passphrase of an existing key is accepted as entered. A new one is
/// asked for twice; two entries that are equal are accepted, and after two
/// that differ the dialogue starts over.
pub open spec fn step_after_entry<E>(pending: PendingView, line: Result<Seq<char>, E>) -> PassphraseStepView<
    E,
> {
    match line {
        Err(error) => PassphraseStepView::Failed { error },
        Ok(entry) => match pending {
            PendingView::Unlock => PassphraseStepView::Accepted { passphrase: entry },
            PendingView::New => PassphraseStepView::Ask {
                after_mismatch: false,
                pending: PendingView::Repeat { first: entry },
            },
            PendingView::Repeat { first } => if first == entry {
                PassphraseStepView::Accepted { passphrase: first }
            } else {
                PassphraseStepView::Ask { after_mismatch: true, pending: PendingView::New }
            },
        },
    }
}

/// Starts the dialogue for the passphrase of an existing key. `preset` is
/// the value of the override variable, if it is set.
pub fn read_passphrase<E>(preset: Option<String>) -> (step: PassphraseStep<E>)
    ensures
        step@ == first_step::<E>(preset_view(preset), PendingView::Unlock),
{
    match preset {
        Some(passphrase) => PassphraseStep::Preset { passphrase },
        None => PassphraseStep::Ask { after_mismatch: false, pending: Pending::Unlock },
    }
}

/// Starts the dialogue for a new passphrase. `preset` is the value of the
/// override variable, if it is set.
pub fn read_new_passphrase<E>(preset: Option<String>) -> (step: PassphraseStep<E>)
    ensures
        step@ == first_step::<E>(preset_view(preset), PendingView::New),
{
    match preset {
        Some(passphrase) => PassphraseStep::Preset { passphrase },
        None => PassphraseStep::Ask { after_mismatch: false, pending: Pending::New },
    }
}

/// Continues the dialogue with the line read for `pending`, or with the
/// failure to read it.
pub fn entered<E>(pending: Pending, line: Result<String, E>) -> (step: PassphraseStep<E>)
    ensures
        step@ == step_after_entry(pending@, entry_view(line)),
{
    match line {
        Err(error) => PassphraseStep::Failed { error },
        Ok(entry) => match pending {
            Pending::Unlock => PassphraseStep::Accepted { passphrase: entry },
            Pending::New => PassphraseStep::Ask {
                after_mismatch: false,
                pending: Pending::Repeat { first: entry },
            },
            Pending::Repeat { first } => if first == entry {
                PassphraseStep::Accepted { passphrase: first }
            } else {
                PassphraseStep::Ask { after_mismatch: true, pending: Pending::New }
            },
        },
    }
}

/// Where the override variable is set, its value is the passphrase and
/// the terminal is not asked, for an existing key and for a new one.
pub proof fn lemma_preset_is_not_asked<E>(passphrase: Seq<char>, pending: PendingView)
    ensures
        first_step::<E>(Some(passphrase), pending) == (PassphraseStepView::<E>::Preset {
            passphrase,
        }),
{
}

/// A new passphrase is accepted if and only if the second entry equals the
/// first, and it is then that entry. After two entries that differ the
/// dialogue asks for a first entry again and keeps nothing of either.
pub proof fn lemma_new_passphrase_is_confirmed<E>(first: Seq<char>, second: Seq<char>)
    ensures
        step_after_entry::<E>(PendingView::New, Ok(first)) == (PassphraseStepView::<E>::Ask {
            after_mismatch: false,
            pending: PendingView::Repeat { first },
        }),
        first == second ==> step_after_entry::<E>(PendingView::Repeat { first }, Ok(second)) == (
        PassphraseStepView::<E>::Accepted { passphrase: first }),
        first != second ==> step_after_entry::<E>(PendingView::Repeat { first }, Ok(second)) == (
        PassphraseStepView::<E>::Ask { after_mismatch: true, pending: PendingView::New }),
{
}

/// The step that the dialogue is at once the lines `entries` were read one
/// after another, each for the entry that the step before it asked for. A
/// dialogue that is over takes no further line.
pub open spec fn after_entries<E>(
    step: PassphraseStepView<E>,
    entries: Seq<Seq<char>>,
) -> PassphraseStepView<E>
    decreases entries.len(),
{
    if entries.len() == 0 {
        step
    } else {
        match step {
            PassphraseStepView::Ask { pending, .. } => after_entries(
                step_after_entry(pending, Ok(entries[0])),
                entries.drop_first(),
            ),
            _ => step,
        }
    }
}

/// The passphrase of an existing key is the first line that is entered.
pub proof fn lemma_unlock_takes_the_first_entry<E>(entries: Seq<Seq<char>>)
    requires
        entries.len() > 0,
    ensures
        after_entries(first_step::<E>(None, PendingView::Unlock), entries) == (PassphraseStepView::<
            E,
        >::Accepted { passphrase: entries[0] }),
{
    let accepted = PassphraseStepView::<E>::Accepted { passphrase: entries[0] };
    if entries.drop_first().len() > 0 {
        assert(after_entries(accepted, entries.drop_first()) == accepted);
    }
}

/// Whether the two entries of the pair with the number `pair`, counted from
/// zero, are equal: the entries at `2 * pair` and at `2 * pair + 1`.
pub open spec fn pair_matches(entries: Seq<Seq<char>>, pair: int) -> bool {
    entries[2 * pair] == entries[2 * pair + 1]
}

/// Whether `pair` is a whole pair of `entries`, its two entries are equal,
/// and no pair before it has two equal entries.
pub open spec fn first_matching_pair(entries: Seq<Seq<char>>, pair: int) -> bool {
    &&& 0 <= pair
    &&& 2 * pair + 1 < entries.len()
    &&& pair_matches(entries, pair)
    &&& forall|earlier: int| 0 <= earlier < pair ==> !#[trigger] pair_matches(entries, earlier)
}

/// Whether no whole pair of `entries` has two equal entries.
pub open spec fn no_matching_pair(entries: Seq<Seq<char>>) -> bool {
    forall|pair: int|
        0 <= pair && 2 * pair + 1 < entries.len() ==> !#[trigger] pair_matches(entries, pair)
}

/// What a dialogue that waits for the first entry of a new passphrase has
/// come to after `entries`: the step `end`.
pub open spec fn pairs_decide<E>(entries: Seq<Seq<char>>, end: PassphraseStepView<E>) -> bool {
    match end {
        PassphraseStepView::Accepted { passphrase } => exists|pair: int|
            #[trigger] first_matching_pair(entries, pair) && entries[2 * pair] == passphrase,
        PassphraseStepView::Ask { .. } => no_matching_pair(entries),
        _ => false,
    }
}

/// A new passphrase comes out of entries taken in pairs: it is the first
/// pair whose two entries are equal. Until such a pair was entered the
/// dialogue goes on asking, without a limit.
pub proof fn lemma_new_passphrase_is_first_matching_pair<E>(entries: Seq<Seq<char>>)
    ensures
        pairs_decide(entries, after_entries(first_step::<E>(None, PendingView::New), entries)),
{
    lemma_pairs::<E>(false, entries);
}

/// The statement of [`lemma_new_passphrase_is_first_matching_pair`] for a
/// dialogue that waits for a first entry, whether or not a mismatch came
/// before.
proof fn lemma_pairs<E>(after_mismatch: bool, entries: Seq<Seq<char>>)
    ensures
        pairs_decide(
            entries,
            after_entries(
                PassphraseStepView::<E>::Ask { after_mismatch, pending: PendingView::New },
                entries,
            ),
        ),
    decreases entries.len(),
{
    reveal_with_fuel(after_entries, 3);
    let asked = PassphraseStepView::<E>::Ask { after_mismatch, pending: PendingView::New };
    if entries.len() >= 2 {
        let tail = entries.drop_first();
        let rest = tail.drop_first();
        assert forall|i: int| 0 <= i < rest.len() implies rest[i] == entries[i + 2] by {}
        assert(tail[0] == entries[1]);
        assert(after_entries(asked, entries) == after_entries(
            step_after_entry::<E>(PendingView::Repeat { first: entries[0] }, Ok(entries[1])),
            rest,
        ));
        assert forall|pair: int| 0 <= pair && 2 * pair + 1 < rest.len() implies pair_matches(
            rest,
            pair,
        ) == pair_matches(entries, pair + 1) by {}
        if entries[0] == entries[1] {
            let accepted = PassphraseStepView::<E>::Accepted { passphrase: entries[0] };
            if rest.len() > 0 {
                assert(after_entries(accepted, rest) == accepted);
            }
            assert(first_matching_pair(entries, 0));
        } else {
            assert(!pair_matches(entries, 0));
            let again = PassphraseStepView::<E>::Ask {
                after_mismatch: true,
                pending: PendingView::New,
            };
            lemma_pairs::<E>(true, rest);
            match after_entries(again, rest) {
                PassphraseStepView::Accepted { passphrase } => {
                    let found = choose|pair: int|
                        #[trigger] first_matching_pair(rest, pair) && rest[2 * pair] == passphrase;
                    assert forall|earlier: int| 0 <= earlier < found + 1 implies !pair_matches(
                        entries,
                        earlier,
                    ) by {
                        if earlier > 0 {
                            assert(!pair_matches(rest, earlier - 1));
                        }
                    }
                    assert(first_matching_pair(entries, found + 1));
                },
                PassphraseStepView::Ask { .. } => {
                    assert forall|pair: int|
                        0 <= pair && 2 * pair + 1 < entries.len() implies !pair_matches(
                        entries,
                        pair,
                    ) by {
                        if pair > 0 {
                            assert(!pair_matches(rest, pair - 1));
                        }
                    }
                },
                _ => {},
            }
        }
    } else {
        assert(no_matching_pair(entries));
    }
}

} // verus!
