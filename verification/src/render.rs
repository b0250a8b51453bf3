//! The text of the menu: one line for each launch target.

use vstd::prelude::*;
use vstd::string::*;

use crate::color::SColor;
use crate::config::ShellView;
use crate::decimal::{append_decimal, decimal, lemma_decimal_len};
use crate::menu::Menu;

verus! {

/// The position of an entry as its line shows it: in decimal digits,
/// filled up with a blank behind them to a width of two.
pub open spec fn label(index: nat) -> Seq<char> {
    if decimal(index).len() < 2 {
        decimal(index).push(' ')
    } else {
        decimal(index)
    }
}

/// The line of the entry at `index`: its label and its name, the name
/// between `> ` and ` <` where the entry is selected and behind two blanks
/// where it is not.
pub open spec fn line_text(index: nat, name: Seq<char>, selected: bool) -> Seq<char> {
    if selected {
        label(index) + seq!['>', ' '] + name + seq![' ', '<']
    } else {
        label(index) + seq![' ', ' '] + name
    }
}

/// One line of the menu.
#[derive(Clone, Debug, PartialEq, Eq)]
pub struct Line {
    /// What the line says.
    pub text: String,
    /// The colour it is shown in.
    pub color: SColor,
}

/// A line as a mathematical value.
pub struct LineView {
    pub text: Seq<char>,
    pub color: SColor,
}

impl View for Line {
    type V = LineView;

    open spec fn view(&self) -> LineView {
        LineView { text: self.text@, color: self.color }
    }
}

/// The lines of a list, each as a mathematical value.
pub open spec fn line_views(lines: Seq<Line>) -> Seq<LineView> {
    Seq::new(lines.len(), |i: int| lines[i]@)
}

/// The lines of a menu over `targets` with the entry at `selected`
/// selected: one for each target, in order and in the target's colour.
pub open spec fn frame_of(targets: Seq<ShellView>, selected: int) -> Seq<LineView> {
    Seq::new(
        targets.len(),
        |i: int|
            LineView {
                text: line_text(i as nat, targets[i].name, i == selected),
                color: targets[i].color,
            },
    )
}

/// The text of the line of the entry at `index`.
pub fn render_line(index: usize, name: &str, selected: bool) -> (out: String)
    ensures
        out@ == line_text(index as nat, name@, selected),
{
    proof {
        reveal_strlit(" ");
        reveal_strlit("> ");
        reveal_strlit(" <");
        reveal_strlit("  ");
        lemma_decimal_len(index as nat);
    }
    let mut out = String::new();
    append_decimal(&mut out, index);
    if index < 10 {
        out.append(" ");
    }
    if selected {
        out.append("> ");
        out.append(name);
        out.append(" <");
    } else {
        out.append("  ");
        out.append(name);
    }
    out
}

/// The lines of the menu as it stands.
pub fn frame(menu: &Menu) -> (out: Vec<Line>)
    ensures
        line_views(out@) == frame_of(menu@.targets, menu@.selected),
{
    let shells = menu.shells();
    let selected = menu.selected();
    let mut lines: Vec<Line> = Vec::new();
    let mut i: usize = 0;
    while i < shells.len()
        invariant
            i <= shells.len(),
            lines@.len() == i,
            forall|j: int|
                0 <= j < i ==> (#[trigger] lines@[j])@ == (LineView {
                    text: line_text(j as nat, shells@[j]@.name, j == selected),
                    color: shells@[j]@.color,
                }),
        decreases shells.len() - i,
    {
        let shell = &shells[i];
        let text = render_line(i, shell.name.as_str(), i == selected);
        lines.push(Line { text, color: shell.color });
        i += 1;
    }
    lines
}

} // verus!
