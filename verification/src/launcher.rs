//! Result sources and the rule that decides which of them take part in a query.

pub mod app_launcher;
pub mod system_cmd_launcher;
pub mod web_launcher;

use crate::launcher::app_launcher::App;
use crate::launcher::system_cmd_launcher::SystemCommand;
use crate::launcher::web_launcher::Web;
use crate::mode::Mode;
use vstd::prelude::*;

verus! {

/// The kind of a source, with what that kind carries.
#[derive(Clone, Debug)]
pub enum LauncherKind {
    App(App),
    SystemCommand(SystemCommand),
    Web(Web),
}

/// One registered source of results.
#[derive(Clone, Debug)]
pub struct Launcher {
    pub kind: LauncherKind,
    /// Shown on the home screen.
    pub home: bool,
    /// Shown on the home screen and nowhere else.
    pub only_home: bool,
}

/// The characters of an optional string.
pub open spec fn text_of(s: Option<String>) -> Option<Seq<char>> {
    match s {
        Some(s) => Some(s@),
        None => None,
    }
}

impl Launcher {
    pub open spec fn spec_priority(&self) -> u32 {
        match self.kind {
            LauncherKind::App(a) => a.priority,
            LauncherKind::SystemCommand(c) => c.priority,
            LauncherKind::Web(w) => w.priority,
        }
    }

    pub open spec fn spec_is_async(&self) -> bool {
        match self.kind {
            LauncherKind::App(a) => a.is_async,
            LauncherKind::SystemCommand(c) => c.is_async,
            LauncherKind::Web(w) => w.is_async,
        }
    }

    pub open spec fn spec_name(&self) -> Seq<char> {
        match self.kind {
            LauncherKind::App(a) => a.name@,
            LauncherKind::SystemCommand(c) => c.name@,
            LauncherKind::Web(w) => w.name@,
        }
    }

    pub open spec fn spec_method(&self) -> Seq<char> {
        match self.kind {
            LauncherKind::App(a) => a.method@,
            LauncherKind::SystemCommand(c) => c.method@,
            LauncherKind::Web(w) => w.method@,
        }
    }

    pub open spec fn spec_alias(&self) -> Option<Seq<char>> {
        match self.kind {
            LauncherKind::App(a) => text_of(a.alias),
            LauncherKind::SystemCommand(c) => text_of(c.alias),
            LauncherKind::Web(w) => text_of(w.alias),
        }
    }

    /// The namespace rule: under the namespace of all sources (`None`) a
    /// source takes part when its priority is positive; under a named one,
    /// when its priority is zero and its alias is that name.
    pub open spec fn in_namespace(&self, mode: Option<Seq<char>>) -> bool {
        match mode {
            None => self.spec_priority() > 0,
            Some(alias) => self.spec_priority() == 0 && self.spec_alias() == Some(alias),
        }
    }

    /// The screen rule: the home screen shows the sources marked for it, any
    /// other screen those that are not bound to the home screen.
    pub open spec fn on_screen(&self, is_home: bool) -> bool {
        (is_home && self.home) || (!is_home && !self.only_home)
    }

    /// Whether the source takes part in a search under `mode` on the given screen.
    pub open spec fn eligible(&self, mode: Option<Seq<char>>, is_home: bool) -> bool {
        self.in_namespace(mode) && self.on_screen(is_home)
    }

    /// Zero for a source that is reached through its alias only.
    #[verifier::when_used_as_spec(spec_priority)]
    pub fn priority(&self) -> (p: u32)
        ensures
            p == self.spec_priority(),
    {
        match &self.kind {
            LauncherKind::App(a) => a.priority,
            LauncherKind::SystemCommand(c) => c.priority,
            LauncherKind::Web(w) => w.priority,
        }
    }

    /// Whether a result of this source arrives later than the list is drawn.
    #[verifier::when_used_as_spec(spec_is_async)]
    pub fn is_async(&self) -> (b: bool)
        ensures
            b == self.spec_is_async(),
    {
        match &self.kind {
            LauncherKind::App(a) => a.is_async,
            LauncherKind::SystemCommand(c) => c.is_async,
            LauncherKind::Web(w) => w.is_async,
        }
    }

    /// The name shown for the source and for its namespace.
    pub fn name(&self) -> (n: &String)
        ensures
            n@ == self.spec_name(),
    {
        match &self.kind {
            LauncherKind::App(a) => &a.name,
            LauncherKind::SystemCommand(c) => &c.name,
            LauncherKind::Web(w) => &w.name,
        }
    }

    /// The word that tells the kinds of sources apart in a configuration.
    pub fn method(&self) -> (m: &String)
        ensures
            m@ == self.spec_method(),
    {
        match &self.kind {
            LauncherKind::App(a) => &a.method,
            LauncherKind::SystemCommand(c) => &c.method,
            LauncherKind::Web(w) => &w.method,
        }
    }

    /// The word that names the source's own namespace, if it has one.
    pub fn alias(&self) -> (a: &Option<String>)
        ensures
            text_of(*a) == self.spec_alias(),
    {
        match &self.kind {
            LauncherKind::App(a) => &a.alias,
            LauncherKind::SystemCommand(c) => &c.alias,
            LauncherKind::Web(w) => &w.alias,
        }
    }

    /// Decides whether the source takes part in a search.
    pub fn is_eligible(&self, mode: &Mode, is_home: bool) -> (b: bool)
        ensures
            b == self.eligible(mode@, is_home),
    {
        let on_screen = (is_home && self.home) || (!is_home && !self.only_home);
        if !on_screen {
            return false;
        }
        match mode {
            Mode::All => self.priority() > 0,
            Mode::Named(wanted) => {
                if self.priority() != 0 {
                    return false;
                }
                match self.alias() {
                    Some(own) => {
                        let same = *own == *wanted;
                        same
                    },
                    None => false,
                }
            },
        }
    }
}

/// No alias stands on two sources.
pub open spec fn aliases_distinct(launchers: Seq<Launcher>) -> bool {
    forall|i: int, j: int|
        0 <= i < j < launchers.len() && (#[trigger] launchers[i]).spec_alias() is Some
            ==> launchers[i].spec_alias() != (#[trigger] launchers[j]).spec_alias()
}

/// Decides whether no alias stands on two of the sources.
pub fn aliases_are_distinct(launchers: &Vec<Launcher>) -> (b: bool)
    ensures
        b == aliases_distinct(launchers@),
{
    let mut j: usize = 0;
    while j < launchers.len()
        invariant
            j <= launchers.len(),
            forall|a: int, b: int|
                0 <= a < b < j && (#[trigger] launchers[a]).spec_alias() is Some ==> launchers[a].spec_alias()
                    != (#[trigger] launchers[b]).spec_alias(),
        decreases launchers.len() - j,
    {
        match launchers[j].alias() {
            Some(alias) => {
                let mut i: usize = 0;
                while i < j
                    invariant
                        i <= j,
                        j < launchers.len(),
                        launchers[j as int].spec_alias() == Some(alias@),
                        forall|a: int|
                            0 <= a < i ==> (#[trigger] launchers[a]).spec_alias() != launchers[j as int].spec_alias(),
                    decreases j - i,
                {
                    match launchers[i].alias() {
                        Some(other) => {
                            if *other == *alias {
                                return false;
                            }
                        },
                        None => {},
                    }
                    i = i + 1;
                }
            },
            None => {},
        }
        j = j + 1;
    }
    true
}

/// Where no alias stands on two sources, a named namespace has one source
/// at most.
pub proof fn lemma_namespace_has_one_source(launchers: Seq<Launcher>, alias: Seq<char>, i: int, j: int)
    requires
        aliases_distinct(launchers),
        0 <= i < launchers.len(),
        0 <= j < launchers.len(),
        launchers[i].in_namespace(Some(alias)),
        launchers[j].in_namespace(Some(alias)),
    ensures
        i == j,
{
}

/// A source that is reached through its alias only is in no namespace but
/// its own: not in that of all sources, and in a named one only under its
/// own alias.
pub proof fn lemma_alias_only_source(launcher: Launcher, mode: Option<Seq<char>>)
    requires
        launcher.spec_priority() == 0,
        launcher.in_namespace(mode),
    ensures
        mode is Some,
        mode == launcher.spec_alias(),
{
}

} // verus!
