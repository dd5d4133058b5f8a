//! Editing a template's options before they are used.

use vstd::prelude::*;

use crate::config::{flatten, flattened, options_view, strings_view, CommandOption, OptionView};
use crate::error::ErrorKind;
use crate::number::{index_of_line, parse_index};
use crate::text::same_text;

verus! {

/// The answer that accepts what is shown.
pub const ACCEPT: &'static str = "y";

/// The answer that rejects what is shown.
pub const REJECT: &'static str = "n";

/// An editing session over one list of options. Each line typed by the
/// user moves it on, until the list is accepted or an answer cannot be used.
#[derive(Clone, Debug, PartialEq, Eq)]
pub enum OptionEditor {
    /// The options are on display and the user is asked to accept them.
    Presenting { options: Vec<CommandOption> },
    /// The user rejected the options and is asked which one to change.
    SelectIndex { options: Vec<CommandOption> },
    /// The user is asked for the new value of the option at `index`.
    ReadValue { options: Vec<CommandOption>, index: usize },
    /// The user accepted the options; `arguments` is their flattened form.
    Accepted { arguments: Vec<String> },
    /// An answer could not be used; the session is over.
    Failed { error: ErrorKind },
}

/// What an [`OptionEditor`] holds.
pub enum EditorView {
    Presenting { options: Seq<OptionView> },
    SelectIndex { options: Seq<OptionView> },
    ReadValue { options: Seq<OptionView>, index: int },
    Accepted { arguments: Seq<Seq<char>> },
    Failed { error: ErrorKind },
}

impl View for OptionEditor {
    type V = EditorView;

    open spec fn view(&self) -> EditorView {
        match self {
            OptionEditor::Presenting { options } => EditorView::Presenting {
                options: options_view(options@),
            },
            OptionEditor::SelectIndex { options } => EditorView::SelectIndex {
                options: options_view(options@),
            },
            OptionEditor::ReadValue { options, index } => EditorView::ReadValue {
                options: options_view(options@),
                index: *index as int,
            },
            OptionEditor::Accepted { arguments } => EditorView::Accepted {
                arguments: strings_view(arguments@),
            },
            OptionEditor::Failed { error } => EditorView::Failed { error: *error },
        }
    }
}

/// `options` with the value at `index` replaced by `value`; the flag at
/// `index` and every other entry stay as they are.
pub open spec fn with_value(options: Seq<OptionView>, index: int, value: Seq<char>) -> Seq<
    OptionView,
> {
    options.update(index, OptionView { flag: options[index].flag, value })
}

impl EditorView {
    /// The session is over: the options were accepted, or an answer failed.
    pub open spec fn finished(self) -> bool {
        self is Accepted || self is Failed
    }

    /// The session after the user typed `line`.
    ///
    /// While the options are presented, the accepting answer ends the
    /// session with the flattened list, the rejecting answer asks for an
    /// index, and any other line presents the same list again. A line that
    /// is no index fails with `InvalidInput`, an index beyond the list with
    /// `OutOfRange`. The line typed as a new value is taken as it is.
    pub open spec fn fed(self, line: Seq<char>) -> EditorView {
        match self {
            EditorView::Presenting { options } => if line == ACCEPT@ {
                EditorView::Accepted { arguments: flattened(options) }
            } else if line == REJECT@ {
                EditorView::SelectIndex { options }
            } else {
                self
            },
            EditorView::SelectIndex { options } => match index_of_line(line) {
                Ok(index) => if index < options.len() {
                    EditorView::ReadValue { options, index: index as int }
                } else {
                    EditorView::Failed { error: ErrorKind::OutOfRange }
                },
                Err(error) => EditorView::Failed { error },
            },
            EditorView::ReadValue { options, index } => if 0 <= index < options.len() {
                EditorView::Presenting { options: with_value(options, index, line) }
            } else {
                EditorView::Failed { error: ErrorKind::OutOfRange }
            },
            EditorView::Accepted { .. } => self,
            EditorView::Failed { .. } => self,
        }
    }

    /// The session after the user typed each of `lines` in turn.
    pub open spec fn fed_all(self, lines: Seq<Seq<char>>) -> EditorView
        decreases lines.len(),
    {
        if lines.len() == 0 {
            self
        } else {
            self.fed(lines[0]).fed_all(lines.skip(1))
        }
    }
}

impl OptionEditor {
    /// Opens a session that presents `options`.
    pub fn new(options: Vec<CommandOption>) -> (editor: OptionEditor)
        ensures
            editor@ == (EditorView::Presenting { options: options_view(options@) }),
    {
        OptionEditor::Presenting { options }
    }

    /// Whether the session is over.
    pub fn is_finished(&self) -> (finished: bool)
        ensures
            finished == self@.finished(),
    {
        match self {
            OptionEditor::Accepted { .. } => true,
            OptionEditor::Failed { .. } => true,
            _ => false,
        }
    }

    /// Moves the session on by one line typed by the user.
    pub fn feed(self, line: &str) -> (next: OptionEditor)
        ensures
            next@ == self@.fed(line@),
    {
        match self {
            OptionEditor::Presenting { options } => {
                if same_text(line, ACCEPT) {
                    OptionEditor::Accepted { arguments: flatten(&options) }
                } else if same_text(line, REJECT) {
                    OptionEditor::SelectIndex { options }
                } else {
                    OptionEditor::Presenting { options }
                }
            },
            OptionEditor::SelectIndex { options } => {
                match parse_index(line) {
                    Ok(index) => {
                        if index < options.len() {
                            OptionEditor::ReadValue { options, index }
                        } else {
                            OptionEditor::Failed { error: ErrorKind::OutOfRange }
                        }
                    },
                    Err(error) => OptionEditor::Failed { error },
                }
            },
            OptionEditor::ReadValue { options, index } => {
                if index < options.len() {
                    let mut options = options;
                    let ghost before = options_view(options@);
                    let entry = CommandOption {
                        flag: options[index].flag.clone(),
                        value: line.to_owned(),
                    };
                    options.set(index, entry);
                    assert(options_view(options@) =~= with_value(before, index as int, line@));
                    OptionEditor::Presenting { options }
                } else {
                    OptionEditor::Failed { error: ErrorKind::OutOfRange }
                }
            },
            OptionEditor::Accepted { arguments } => OptionEditor::Accepted { arguments },
            OptionEditor::Failed { error } => OptionEditor::Failed { error },
        }
    }
}

/// The flags of a list of options, in order.
pub open spec fn flags_of(options: Seq<OptionView>) -> Seq<Seq<char>> {
    Seq::new(options.len(), |i: int| options[i].flag)
}

/// Replacing one value changes the flattened list at that value's place and
/// nowhere else.
pub proof fn lemma_with_value_flattened(options: Seq<OptionView>, index: int, value: Seq<char>)
    requires
        0 <= index < options.len(),
    ensures
        flattened(with_value(options, index, value)) == flattened(options).update(
            2 * index + 1,
            value,
        ),
        flags_of(with_value(options, index, value)) == flags_of(options),
{
    assert(flattened(with_value(options, index, value)) =~= flattened(options).update(
        2 * index + 1,
        value,
    ));
    assert(flags_of(with_value(options, index, value)) =~= flags_of(options));
}

/// Rejecting the options, naming the index `index`, typing `value` and then
/// accepting yields the flattened list as it was, with the value at `index`
/// replaced by `value`: its flag and every other entry are unchanged.
pub proof fn lemma_edit_then_accept(
    options: Seq<OptionView>,
    index_line: Seq<char>,
    index: usize,
    value: Seq<char>,
)
    requires
        index < options.len(),
        index_of_line(index_line) == Ok::<usize, ErrorKind>(index),
    ensures
        (EditorView::Presenting { options }).fed_all(seq![REJECT@, index_line, value, ACCEPT@])
            == (EditorView::Accepted {
            arguments: flattened(options).update(2 * index + 1, value),
        }),
        flattened(options).update(2 * index + 1, value)[2 * index] == options[index as int].flag,
        flattened(options).update(2 * index + 1, value)[2 * index + 1] == value,
{
    reveal_strlit("y");
    reveal_strlit("n");
    let lines = seq![REJECT@, index_line, value, ACCEPT@];
    let s0 = EditorView::Presenting { options };
    let s1 = s0.fed(lines[0]);
    assert(REJECT@ != ACCEPT@) by {
        assert(REJECT@[0] == 'n');
        assert(ACCEPT@[0] == 'y');
    }
    assert(s1 == (EditorView::SelectIndex { options }));
    let s2 = s1.fed(index_line);
    assert(s2 == (EditorView::ReadValue { options, index: index as int }));
    let s3 = s2.fed(value);
    assert(s3 == (EditorView::Presenting { options: with_value(options, index as int, value) }));
    let s4 = s3.fed(ACCEPT@);
    lemma_with_value_flattened(options, index as int, value);
    let l1 = lines.skip(1);
    let l2 = l1.skip(1);
    let l3 = l2.skip(1);
    let l4 = l3.skip(1);
    assert(l1[0] == index_line);
    assert(l2[0] == value);
    assert(l3[0] == ACCEPT@);
    assert(l4.len() == 0);
    assert(s4.fed_all(l4) == s4);
    assert(s3.fed_all(l3) == s4);
    assert(s2.fed_all(l2) == s4);
    assert(s1.fed_all(l1) == s4);
    assert(s0.fed_all(lines) == s4);
}

/// Whatever the user types, an editing session never changes the number of
/// options, their order or their flags, and changes at most one value per
/// line.
pub proof fn lemma_edit_keeps_flags(state: EditorView, line: Seq<char>)
    ensures
        match (state, state.fed(line)) {
            (EditorView::Presenting { options }, EditorView::Accepted { arguments }) => arguments
                == flattened(options),
            (EditorView::Presenting { options }, next) => next == state || next
                == (EditorView::SelectIndex { options }),
            (EditorView::SelectIndex { options }, EditorView::ReadValue { options: kept, index }) =>
                kept == options && 0 <= index < options.len(),
            (EditorView::SelectIndex { .. }, next) => next is Failed,
            (EditorView::ReadValue { options, index }, EditorView::Presenting { options: edited }) =>
                {
                &&& 0 <= index < options.len()
                &&& edited.len() == options.len()
                &&& flags_of(edited) == flags_of(options)
                &&& forall|i: int|
                    0 <= i < options.len() && i != index ==> #[trigger] edited[i] == options[i]
                &&& edited[index].value == line
            },
            (EditorView::ReadValue { .. }, next) => next is Failed,
            (_, next) => next == state,
        },
{
    match state {
        EditorView::ReadValue { options, index } => {
            if 0 <= index < options.len() {
                lemma_with_value_flattened(options, index, line);
            }
        },
        _ => {},
    }
}

} // verus!
