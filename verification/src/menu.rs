//! The selection menu: which entry is selected, and what an input does.

use vstd::prelude::*;

use crate::config::{initial_selection, shell_views, Config, Shell, ShellView};
use crate::input::{
    cancels, confirms, moves_down, moves_up, pressed, Input, Key, KeyInput, KeyKind, CONTROL, NONE,
    SHIFT,
};

verus! {

/// What the menu asks for after an input.
#[derive(Clone, Copy, Debug, PartialEq, Eq, Structural)]
pub enum Outcome {
    /// Show the menu again and wait for the next input.
    Pending,
    /// Leave; nothing was chosen.
    Cancelled,
    /// Leave; the entry at this position was chosen.
    Confirmed(usize),
}

/// The selection after `input`, in a menu of `count` entries with the
/// entry at `selected` selected. The arrows move it by one and stop at
/// either end; nothing else moves it.
pub open spec fn selection_after(selected: int, count: int, input: Input) -> int {
    if moves_up(input) {
        if selected > 0 {
            selected - 1
        } else {
            0
        }
    } else if moves_down(input) {
        if selected + 1 < count {
            selected + 1
        } else {
            count - 1
        }
    } else {
        selected
    }
}

/// What the menu asks for after `input`, with the entry at `selected`
/// selected.
pub open spec fn outcome_of(selected: int, input: Input) -> Outcome {
    if cancels(input) {
        Outcome::Cancelled
    } else if confirms(input) {
        Outcome::Confirmed(selected as usize)
    } else {
        Outcome::Pending
    }
}

/// In a menu of `count` entries the up arrow selects the entry before the
/// selected one and the down arrow the entry behind it; at the first entry
/// the up arrow, and at the last entry the down arrow, leaves the
/// selection where it is. The selection never leaves the menu.
pub proof fn lemma_arrows_saturate(selected: int, count: int, input: Input)
    requires
        0 <= selected < count,
    ensures
        moves_up(input) ==> selection_after(selected, count, input) == vstd::math::max(
            selected - 1,
            0,
        ),
        moves_down(input) ==> selection_after(selected, count, input) == vstd::math::min(
            selected + 1,
            count - 1,
        ),
        !moves_up(input) && !moves_down(input) ==> selection_after(selected, count, input)
            == selected,
        0 <= selection_after(selected, count, input) < count,
{
}

/// The press of `c` with control alone cancels, whichever entry is
/// selected, and nothing else does.
pub proof fn lemma_cancel_selects_nothing(selected: int, input: Input)
    ensures
        outcome_of(selected, pressed(Key::Char('c'), CONTROL)) == Outcome::Cancelled,
        outcome_of(selected, input) is Cancelled <==> input == pressed(Key::Char('c'), CONTROL),
{
}

/// An input confirms exactly when it is the press of enter with no
/// modifier or with shift alone, and it then confirms the selected entry.
/// Enter with any other modifiers confirms nothing.
pub proof fn lemma_enter_confirms_selected(selected: usize, input: Input)
    ensures
        outcome_of(selected as int, input) is Confirmed <==> input == pressed(Key::Enter, NONE)
            || input == pressed(Key::Enter, SHIFT),
        outcome_of(selected as int, input) is Confirmed ==> outcome_of(selected as int, input)
            == Outcome::Confirmed(selected),
        forall|modifiers: u8|
            modifiers != NONE && modifiers != SHIFT ==> !(#[trigger] outcome_of(
                selected as int,
                pressed(Key::Enter, modifiers),
            ) is Confirmed),
{
}

/// A menu as a mathematical value.
pub struct MenuView {
    /// The entries, in order.
    pub targets: Seq<ShellView>,
    /// The position of the selected entry.
    pub selected: int,
}

/// A menu over the launch targets of a configuration. One entry is
/// selected at any time.
pub struct Menu<'a> {
    config: &'a Config,
    selected: usize,
}

impl<'a> View for Menu<'a> {
    type V = MenuView;

    closed spec fn view(&self) -> MenuView {
        MenuView { targets: self.config@, selected: self.selected as int }
    }
}

impl<'a> Menu<'a> {
    #[verifier::type_invariant]
    spec fn selects_an_entry(&self) -> bool {
        self.selected < self.config@.len()
    }

    /// Opens the menu on the first target marked as default, or on the
    /// first target where none is marked.
    pub fn new(config: &'a Config) -> (out: Menu<'a>)
        ensures
            out@.targets == config@,
            out@.selected == initial_selection(config@),
    {
        let selected = config.initial_selection();
        Menu { config, selected }
    }

    /// The position of the selected entry.
    pub fn selected(&self) -> (out: usize)
        ensures
            out == self@.selected,
            out < self@.targets.len(),
    {
        proof {
            use_type_invariant(self);
        }
        self.selected
    }

    /// The launch targets of the menu, in order.
    pub fn shells(&self) -> (out: &'a Vec<Shell>)
        ensures
            shell_views(out@) == self@.targets,
    {
        self.config.shells()
    }

    /// The selected launch target.
    pub fn chosen(&self) -> (out: &'a Shell)
        ensures
            0 <= self@.selected < self@.targets.len(),
            out@ == self@.targets[self@.selected],
    {
        proof {
            use_type_invariant(self);
        }
        &self.config.shells()[self.selected]
    }

    /// Takes one input. Control and `c` cancels, enter alone or with shift
    /// confirms the selected entry, the arrows alone move the selection and
    /// stop at either end. Only presses count; every other input leaves the
    /// menu as it is.
    pub fn handle(&mut self, input: &Input) -> (out: Outcome)
        ensures
            out == outcome_of(old(self)@.selected, *input),
            final(self)@.targets == old(self)@.targets,
            final(self)@.selected == selection_after(
                old(self)@.selected,
                old(self)@.targets.len() as int,
                *input,
            ),
    {
        proof {
            use_type_invariant(&*self);
        }
        let count: usize = self.config.len();
        match *input {
            Input::Key(KeyInput { code, modifiers, kind: KeyKind::Press }) => {
                match code {
                    Key::Char(c) => {
                        if c == 'c' && modifiers == CONTROL {
                            return Outcome::Cancelled;
                        }
                    },
                    Key::Enter => {
                        if modifiers == NONE || modifiers == SHIFT {
                            return Outcome::Confirmed(self.selected);
                        }
                    },
                    Key::Up => {
                        if modifiers == NONE && self.selected > 0 {
                            self.selected = self.selected - 1;
                        }
                    },
                    Key::Down => {
                        if modifiers == NONE && self.selected + 1 < count {
                            self.selected = self.selected + 1;
                        }
                    },
                    Key::Other => {},
                }
                Outcome::Pending
            },
            _ => Outcome::Pending,
        }
    }
}

} // verus!
