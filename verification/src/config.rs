//! Launch targets and the configuration that lists them.

use vstd::prelude::*;
use vstd::string::*;

use crate::color::SColor;
use crate::error::ConfigError;

verus! {

/// One launch target: a shell program, how to start it and how to show it.
#[derive(Clone, Debug, PartialEq, Eq)]
pub struct Shell {
    /// The name shown in the menu.
    pub name: String,
    /// The executable to start.
    pub path: String,
    /// The arguments handed to the executable, as they are.
    pub args: Vec<String>,
    /// The colour of the name in the menu.
    pub color: SColor,
    /// Whether the menu starts on this target.
    pub default: Option<bool>,
}

/// A launch target as a mathematical value.
pub struct ShellView {
    pub name: Seq<char>,
    pub path: Seq<char>,
    pub args: Seq<Seq<char>>,
    pub color: SColor,
    pub default: Option<bool>,
}

/// The texts of a list of strings.
pub open spec fn texts(strings: Seq<String>) -> Seq<Seq<char>> {
    Seq::new(strings.len(), |i: int| strings[i]@)
}

impl View for Shell {
    type V = ShellView;

    open spec fn view(&self) -> ShellView {
        ShellView {
            name: self.name@,
            path: self.path@,
            args: texts(self.args@),
            color: self.color,
            default: self.default,
        }
    }
}

/// The launch targets of a list, each as a mathematical value.
pub open spec fn shell_views(shells: Seq<Shell>) -> Seq<ShellView> {
    Seq::new(shells.len(), |i: int| shells[i]@)
}

impl ShellView {
    /// Whether the target is marked as the one to start on.
    pub open spec fn is_default(self) -> bool {
        self.default == Some(true)
    }
}

/// Whether `i` is the position of the first target marked as default.
pub open spec fn is_first_default(targets: Seq<ShellView>, i: int) -> bool {
    &&& 0 <= i < targets.len()
    &&& targets[i].is_default()
    &&& forall|j: int| 0 <= j < i ==> !(#[trigger] targets[j]).is_default()
}

/// Where the menu starts: on the first target marked as default, and on
/// the first target where none is marked.
pub open spec fn initial_selection(targets: Seq<ShellView>) -> int {
    if exists|i: int| is_first_default(targets, i) {
        choose|i: int| is_first_default(targets, i)
    } else {
        0
    }
}

/// A list of launch targets that holds at least one.
#[derive(Debug, PartialEq, Eq)]
pub struct Config {
    shells: Vec<Shell>,
}

impl View for Config {
    type V = Seq<ShellView>;

    closed spec fn view(&self) -> Seq<ShellView> {
        shell_views(self.shells@)
    }
}

impl Config {
    #[verifier::type_invariant]
    spec fn holds_a_target(&self) -> bool {
        self.shells@.len() > 0
    }

    /// Makes a configuration of `shells`, in their order. An empty list is
    /// refused.
    pub fn new(shells: Vec<Shell>) -> (out: Result<Config, ConfigError>)
        ensures
            match out {
                Ok(config) => shells@.len() > 0 && config@ == shell_views(shells@),
                Err(e) => shells@.len() == 0 && e == ConfigError::NoTargets,
            },
    {
        if shells.len() == 0 {
            Err(ConfigError::NoTargets)
        } else {
            Ok(Config { shells })
        }
    }

    /// The number of launch targets, which is never zero.
    pub fn len(&self) -> (n: usize)
        ensures
            n == self@.len(),
            n > 0,
    {
        proof {
            use_type_invariant(self);
        }
        self.shells.len()
    }

    /// The launch targets, in the order of the configuration.
    pub fn shells(&self) -> (out: &Vec<Shell>)
        ensures
            out@.len() > 0,
            shell_views(out@) == self@,
    {
        proof {
            use_type_invariant(self);
        }
        &self.shells
    }

    /// The position the menu starts on.
    pub fn initial_selection(&self) -> (out: usize)
        ensures
            out == initial_selection(self@),
            out < self@.len(),
    {
        proof {
            use_type_invariant(self);
        }
        let n: usize = self.shells.len();
        let mut i: usize = 0;
        while i < n
            invariant
                i <= n,
                n == self.shells@.len(),
                n > 0,
                forall|j: int| 0 <= j < i ==> !(#[trigger] self@[j]).is_default(),
            decreases n - i,
        {
            let marked = match self.shells[i].default {
                Some(flag) => flag,
                None => false,
            };
            if marked {
                proof {
                    assert(is_first_default(self@, i as int));
                }
                return i;
            }
            i += 1;
        }
        0
    }
}

/// In a list that holds a target, the initial selection is a position of
/// the list. Where a target is marked as default it is the first such
/// target, whatever is marked behind it; where none is marked it is the
/// first target of the list.
pub proof fn lemma_initial_selection(targets: Seq<ShellView>)
    requires
        targets.len() > 0,
    ensures
        0 <= initial_selection(targets) < targets.len(),
        (exists|i: int| 0 <= i < targets.len() && (#[trigger] targets[i]).is_default())
            ==> is_first_default(targets, initial_selection(targets)),
        (forall|i: int| 0 <= i < targets.len() ==> !(#[trigger] targets[i]).is_default())
            ==> initial_selection(targets) == 0,
{
    if exists|i: int| 0 <= i < targets.len() && (#[trigger] targets[i]).is_default() {
        let i = choose|i: int| 0 <= i < targets.len() && (#[trigger] targets[i]).is_default();
        lemma_first_default_exists(targets, i);
    }
}

/// Where the target at `i` is marked as default, some target is the first
/// one that is.
proof fn lemma_first_default_exists(targets: Seq<ShellView>, i: int)
    requires
        0 <= i < targets.len(),
        targets[i].is_default(),
    ensures
        exists|k: int| is_first_default(targets, k),
    decreases i,
{
    if exists|j: int| 0 <= j < i && (#[trigger] targets[j]).is_default() {
        let j = choose|j: int| 0 <= j < i && (#[trigger] targets[j]).is_default();
        lemma_first_default_exists(targets, j);
    } else {
        assert(is_first_default(targets, i));
    }
}

/// Where the configuration file of a user lies: `.shellect.toml`, directly
/// in the home directory `home`.
pub open spec fn config_path_of(home: Seq<char>) -> Seq<char> {
    home + "/.shellect.toml"@
}

/// The path of the configuration file of the user whose home directory is
/// `home`.
pub fn config_path(home: &str) -> (out: String)
    ensures
        out@ == config_path_of(home@),
{
    let mut out = String::from_str(home);
    out.append("/.shellect.toml");
    out
}

} // verus!
