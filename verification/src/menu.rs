//! The two menu screens' selection logic.  Directional input moves
//! the highlighted option; the presentation layer only ever reads the
//! resulting selection.

use vstd::prelude::*;

use crate::input::InputState;

verus! {

/// The Start screen's selectable options.
#[derive(Clone, Copy, PartialEq, Eq, Structural, Debug)]
pub enum StartMenu {
    Start,
    Exit,
}

/// The Result screen's selectable options.
#[derive(Clone, Copy, PartialEq, Eq, Structural, Debug)]
pub enum ResultMenu {
    Restart,
    BackToTitle,
}

/// The Start selection after one tick of directional input: a newly
/// pressed left key selects Start, then a newly pressed right key
/// selects Exit, so right wins when both arrive together.
pub open spec fn next_start_selection(sel: StartMenu, inp: InputState) -> StartMenu {
    let after_left = if inp.press_left { StartMenu::Start } else { sel };
    if inp.press_right { StartMenu::Exit } else { after_left }
}

/// The Result selection after one tick of directional input: left
/// selects Restart, then right selects BackToTitle.
pub open spec fn next_result_selection(sel: ResultMenu, inp: InputState) -> ResultMenu {
    let after_left = if inp.press_left { ResultMenu::Restart } else { sel };
    if inp.press_right { ResultMenu::BackToTitle } else { after_left }
}

/// Applies one tick of directional input to the Start selection.
pub fn step_start_selection(sel: StartMenu, inp: &InputState) -> (r: StartMenu)
    ensures
        r == next_start_selection(sel, *inp),
{
    let mut r = sel;
    if inp.press_left {
        r = StartMenu::Start;
    }
    if inp.press_right {
        r = StartMenu::Exit;
    }
    r
}

/// Applies one tick of directional input to the Result selection.
pub fn step_result_selection(sel: ResultMenu, inp: &InputState) -> (r: ResultMenu)
    ensures
        r == next_result_selection(sel, *inp),
{
    let mut r = sel;
    if inp.press_left {
        r = ResultMenu::Restart;
    }
    if inp.press_right {
        r = ResultMenu::BackToTitle;
    }
    r
}

} // verus!
