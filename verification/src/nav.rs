//! The keyboard: what a key press means, and what it does to the session.

use crate::keys::{ConfKeys, Key, KeyPress, Modifiers, SHIFT_MASK, TAB_KEYCODE};
use crate::mode::Mode;
use crate::results::{RenderedList, SHORTCUT_SLOTS};
use crate::search::{all_label, reset_mode, CycleTicket, ModeSwitch, SearchSession};
use vstd::prelude::*;

verus! {

/// What a key press asks for.
#[derive(Clone, Copy, Debug, PartialEq, Eq, Structural)]
pub enum NavCommand {
    /// Move the focus one row up. The flag says whether the press is used up.
    Previous(bool),
    /// Move the focus one row down.
    Next,
    /// Empty the query.
    EraseAll,
    /// A plain backspace: it leaves a named namespace once the query is empty.
    EraseOne,
    /// Activate the row under the focus.
    Enter,
    /// Activate the row that holds this shortcut.
    Shortcut(u8),
    /// Nothing that the list cares about.
    Ignore,
}

/// What a key press did, beyond moving the focus.
#[derive(Clone, Debug)]
pub struct NavOutcome {
    /// Whether the press is used up and must not reach the text entry.
    pub consumed: bool,
    /// Whether the query text is to be emptied.
    pub clear_query: bool,
    /// The change of namespace that the press brought.
    pub switched: Option<ModeSwitch>,
    /// The item that is to be activated, by its position among the items.
    pub activate: Option<usize>,
}

/// Whether shift is among the modifiers of `press`.
pub open spec fn shift_held(press: KeyPress) -> bool {
    press.modifiers.spec_contains(Modifiers { bits: SHIFT_MASK })
}

/// What `press` asks for under the bindings `binds`. The bound keys come
/// before the fixed ones, and moving up before moving down.
pub open spec fn command_of(binds: ConfKeys, press: KeyPress) -> NavCommand {
    if binds.is_prev(press) {
        NavCommand::Previous(true)
    } else if binds.is_next(press) {
        NavCommand::Next
    } else if press.key == Key::Up {
        NavCommand::Previous(false)
    } else if press.key == Key::Down {
        NavCommand::Next
    } else if press.key == Key::BackSpace {
        if binds.holds_shortcut_modifier(press) {
            NavCommand::EraseAll
        } else {
            NavCommand::EraseOne
        }
    } else if press.key == Key::Return {
        NavCommand::Enter
    } else if press.key matches Key::Digit(n) && 1 <= n <= SHORTCUT_SLOTS {
        if binds.holds_shortcut_modifier(press) {
            NavCommand::Shortcut(press.key->Digit_0)
        } else {
            NavCommand::Ignore
        }
    } else if press.keycode == TAB_KEYCODE && shift_held(press) {
        if ConfKeys::is_shift_tab(binds.prev, binds.prev_mod) {
            NavCommand::Previous(true)
        } else if ConfKeys::is_shift_tab(binds.next, binds.next_mod) {
            NavCommand::Next
        } else {
            NavCommand::Ignore
        }
    } else {
        NavCommand::Ignore
    }
}

/// Reads a key press under the bindings `binds`.
pub fn classify(binds: &ConfKeys, press: KeyPress) -> (command: NavCommand)
    ensures
        command == command_of(*binds, press),
{
    if ConfKeys::check_bound(binds.prev, binds.prev_mod, press) {
        return NavCommand::Previous(true);
    }
    if ConfKeys::check_bound(binds.next, binds.next_mod, press) {
        return NavCommand::Next;
    }
    match press.key {
        Key::Up => NavCommand::Previous(false),
        Key::Down => NavCommand::Next,
        Key::BackSpace => {
            if binds.check_shortcut_modifier(press) {
                NavCommand::EraseAll
            } else {
                NavCommand::EraseOne
            }
        },
        Key::Return => NavCommand::Enter,
        Key::Digit(n) if 1 <= n && n <= SHORTCUT_SLOTS => {
            if binds.check_shortcut_modifier(press) {
                NavCommand::Shortcut(n)
            } else {
                NavCommand::Ignore
            }
        },
        _ => {
            if press.keycode == TAB_KEYCODE && press.modifiers.contains(Modifiers { bits: SHIFT_MASK }) {
                if ConfKeys::check_shift_tab(binds.prev, binds.prev_mod) {
                    NavCommand::Previous(true)
                } else if ConfKeys::check_shift_tab(binds.next, binds.next_mod) {
                    NavCommand::Next
                } else {
                    NavCommand::Ignore
                }
            } else {
                NavCommand::Ignore
            }
        },
    }
}

impl NavOutcome {
    /// The press did nothing beyond what the session shows.
    pub open spec fn is_plain(&self, consumed: bool) -> bool {
        &&& self.consumed == consumed
        &&& !self.clear_query
        &&& self.switched is None
        &&& self.activate is None
    }
}

impl SearchSession {
    /// `self` is `before` with the focus on `target`.
    pub open spec fn moves_focus(&self, before: SearchSession, target: Option<usize>) -> bool {
        &&& self.same_setup(before)
        &&& self.same_cycle(before)
        &&& self.results.same_rows(before.results)
        &&& self.results.selected == target
    }

    /// `self` is `before` after the namespace was left for that of all
    /// sources, the home screen was asked for, and the focus was put on the
    /// first row; `switch` is that change.
    pub open spec fn leaves_namespace(&self, before: SearchSession, switch: ModeSwitch) -> bool {
        &&& self.begins_cycle(before, Seq::empty(), false, switch.plan)
        &&& self.mode@ is None
        &&& switch.plan.is_home
        &&& !switch.named
        &&& switch.label@ == all_label()
        &&& self.results.same_rows(before.results)
        &&& self.results.selected == RenderedList::first_row(before.results.order@.len())
    }

    /// `self` is `before` after the key press `press`, and `outcome` is what
    /// the press did.
    pub open spec fn navigates(&self, before: SearchSession, press: KeyPress, outcome: NavOutcome) -> bool {
        match command_of(before.custom_binds, press) {
            NavCommand::Previous(consumed) => {
                &&& self.moves_focus(before, RenderedList::row_above(before.results.selected))
                &&& outcome.is_plain(consumed)
            },
            NavCommand::Next => {
                &&& self.moves_focus(
                    before,
                    RenderedList::row_below(before.results.selected, before.results.order@.len()),
                )
                &&& outcome.is_plain(true)
            },
            NavCommand::EraseAll => {
                &&& self.moves_focus(before, RenderedList::first_row(before.results.order@.len()))
                &&& !outcome.consumed
                &&& outcome.clear_query
                &&& outcome.switched is None
                &&& outcome.activate is None
            },
            NavCommand::EraseOne => {
                if before.query@.len() == 0 && before.mode@ is Some {
                    &&& outcome.switched is Some
                    &&& self.leaves_namespace(before, outcome.switched->0)
                    &&& !outcome.consumed
                    &&& !outcome.clear_query
                    &&& outcome.activate is None
                } else {
                    &&& self.moves_focus(before, RenderedList::first_row(before.results.order@.len()))
                    &&& outcome.is_plain(false)
                }
            },
            NavCommand::Enter => {
                &&& *self == before
                &&& !outcome.consumed
                &&& !outcome.clear_query
                &&& outcome.switched is None
                &&& outcome.activate == before.results.focused_item()
            },
            NavCommand::Shortcut(slot) => {
                &&& *self == before
                &&& outcome.consumed
                &&& !outcome.clear_query
                &&& outcome.switched is None
                &&& before.results.is_item_of_slot(outcome.activate, slot)
            },
            NavCommand::Ignore => {
                &&& *self == before
                &&& outcome.is_plain(false)
            },
        }
    }
}

/// Takes a key press.
///
/// The focus moves up or down by one row and stops at the ends of the
/// list. A backspace with the shortcut modifier asks for the query to be
/// emptied; a plain backspace on an empty query leaves a named namespace
/// for that of all sources; both put the focus on the first row. Enter
/// activates the item under the focus, and a digit with the shortcut
/// modifier the item that holds that shortcut, without moving the focus.
pub fn nav_event(session: &mut SearchSession, press: KeyPress) -> (outcome: NavOutcome)
    ensures
        final(session).navigates(*old(session), press, outcome),
        old(session).wf() ==> final(session).wf(),
{
    let mut outcome = NavOutcome { consumed: false, clear_query: false, switched: None, activate: None };
    match classify(&session.custom_binds, press) {
        NavCommand::Previous(consumed) => {
            session.results.focus_prev();
            outcome.consumed = consumed;
        },
        NavCommand::Next => {
            session.results.focus_next();
            outcome.consumed = true;
        },
        NavCommand::EraseAll => {
            session.results.focus_first();
            outcome.clear_query = true;
        },
        NavCommand::EraseOne => {
            let named = match &session.mode {
                Mode::All => false,
                Mode::Named(_) => true,
            };
            if session.query.as_str().is_empty() && named {
                let switch = reset_mode(session);
                outcome.switched = Some(switch);
            }
            session.results.focus_first();
        },
        NavCommand::Enter => {
            outcome.activate = session.results.selected_item();
        },
        NavCommand::Shortcut(slot) => {
            outcome.activate = session.results.execute_by_index(slot);
            outcome.consumed = true;
        },
        NavCommand::Ignore => {},
    }
    outcome
}

/// A plain backspace on an empty query under a named namespace leads to
/// the namespace of all sources, and the cycle that it begins is the one
/// for the home screen.
pub proof fn lemma_backspace_leaves_namespace(
    before: SearchSession,
    after: SearchSession,
    press: KeyPress,
    outcome: NavOutcome,
)
    requires
        after.navigates(before, press, outcome),
        command_of(before.custom_binds, press) is EraseOne,
        before.query@.len() == 0,
        before.mode@ is Some,
    ensures
        after.mode@ is None,
        after.query@.len() == 0,
        outcome.switched is Some,
        outcome.switched->0.plan.is_home,
        outcome.switched->0.plan.is_plan_of(after, false, before.task_running),
{
}

/// A cycle that was left behind stays behind whatever key is pressed.
pub proof fn lemma_left_behind_after_key(
    before: SearchSession,
    after: SearchSession,
    press: KeyPress,
    outcome: NavOutcome,
    late: CycleTicket,
)
    requires
        before.left_behind(late),
        after.navigates(before, press, outcome),
    ensures
        after.left_behind(late),
{
}

} // verus!
