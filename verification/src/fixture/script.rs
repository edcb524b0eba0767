//! What the deterministic target does, step by step.

use vstd::prelude::*;

use crate::json::{Json, JsonView};
use crate::text::views;

verus! {

/// What follows the actions of a script.
#[derive(Clone, Copy, Debug, PartialEq, Eq, Structural)]
pub enum Exit {
    /// The process ends well.
    Success,
    /// The process ends badly.
    Failure,
    /// The process waits for the next turn.
    Continue,
}

/// One action of a script.
#[derive(Debug, PartialEq, Eq)]
pub enum Action {
    /// Write one event as a line of standard output.
    Emit(Json),
    /// Write one event as a line, with a pause inside its last character beyond the basic plane.
    EmitSplit(Json),
    /// Write a text to standard output as it is.
    Write(String),
    /// Write a line to standard error.
    Complain(String),
    /// Wait.
    Sleep { millis: u64 },
}

/// The mathematical content of [`Action`].
#[verifier::ext_equal]
pub enum ActionView {
    Emit(JsonView),
    EmitSplit(JsonView),
    Write(Seq<char>),
    Complain(Seq<char>),
    Sleep { millis: u64 },
}

impl View for Action {
    type V = ActionView;

    open spec fn view(&self) -> ActionView {
        match *self {
            Action::Emit(value) => ActionView::Emit(value@),
            Action::EmitSplit(value) => ActionView::EmitSplit(value@),
            Action::Write(value) => ActionView::Write(value@),
            Action::Complain(value) => ActionView::Complain(value@),
            Action::Sleep { millis } => ActionView::Sleep {
                millis,
            },
        }
    }
}

/// What the target does with one prompt.
#[derive(Debug, PartialEq, Eq)]
pub struct Script {
    pub actions: Vec<Action>,
    pub exit: Exit,
}

/// The mathematical content of [`Script`].
#[verifier::ext_equal]
pub struct ScriptView {
    pub actions: Seq<ActionView>,
    pub exit: Exit,
}

impl View for Script {
    type V = ScriptView;

    open spec fn view(&self) -> ScriptView {
        ScriptView {
            actions: views(self.actions@),
            exit: self.exit,
        }
    }
}

/// Appends one action.
pub(crate) fn act(actions: &mut Vec<Action>, action: Action)
    ensures
        views(final(actions)@) == views(old(actions)@).push(action@),
{
    actions.push(action);
    proof {
        assert(views(actions@) =~= views(old(actions)@).push(action@));
    }
}

/// A script.
pub(crate) fn script(actions: Vec<Action>, exit: Exit) -> (script: Script)
    ensures
        script@ == (ScriptView { actions: views(actions@), exit }),
{
    Script { actions, exit }
}

/// No actions yet.
pub(crate) fn idle() -> (actions: Vec<Action>)
    ensures
        views(actions@) == Seq::<ActionView>::empty(),
{
    let actions: Vec<Action> = Vec::new();
    proof {
        assert(views(actions@) =~= Seq::<ActionView>::empty());
    }
    actions
}

/// The bytes of the character that a split event is split in.
pub open spec fn split_character() -> Seq<u8> {
    seq![0xf0u8, 0x9fu8, 0x98u8, 0x80u8]
}

/// Whether the character that a split event is split in begins at a place.
pub open spec fn splits_at(bytes: Seq<u8>, place: int) -> bool {
    place + 4 <= bytes.len() && bytes.subrange(place, place + 4) == split_character()
}

/// Finds where an event is split: behind the first byte of the first such character.
pub fn split_point(bytes: &[u8]) -> (point: Option<usize>)
    ensures
        match point {
            Some(point) => 0 < point <= bytes@.len() && splits_at(bytes@, point - 1)
                && forall|place: int|
                0 <= place < point - 1 ==> !#[trigger] splits_at(bytes@, place),
            None => forall|place: int| 0 <= place ==> !#[trigger] splits_at(bytes@, place),
        },
{
    let mut place: usize = 0;
    while place < bytes.len() && bytes.len() - place >= 4
        invariant
            place <= bytes@.len(),
            forall|earlier: int| 0 <= earlier < place ==> !#[trigger] splits_at(bytes@, earlier),
        decreases bytes@.len() - place,
    {
        let found = bytes[place] == 0xf0 && bytes[place + 1] == 0x9f && bytes[place + 2] == 0x98
            && bytes[place + 3] == 0x80;
        proof {
            let window = bytes@.subrange(place as int, place + 4);
            if found {
                assert(window =~= split_character());
            } else if window == split_character() {
                assert(window[0] == 0xf0 && window[1] == 0x9f && window[2] == 0x98 && window[3]
                    == 0x80);
            }
        }
        if found {
            return Some(place + 1);
        }
        place = place + 1;
    }
    None
}

} // verus!
