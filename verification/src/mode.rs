//! The active namespace and the registry of the namespaces that exist.

use crate::launcher::Launcher;
use vstd::prelude::*;

verus! {

/// The namespace in which queries are answered.
#[derive(Clone, Debug)]
pub enum Mode {
    /// Every source with a positive priority answers.
    All,
    /// Only the source with this alias answers.
    Named(String),
}

impl View for Mode {
    /// `None` stands for the namespace of all sources.
    type V = Option<Seq<char>>;

    open spec fn view(&self) -> Option<Seq<char>> {
        match self {
            Mode::All => None,
            Mode::Named(alias) => Some(alias@),
        }
    }
}

/// One namespace: the alias that selects it and the name shown for it.
#[derive(Clone, Debug)]
pub struct ModeEntry {
    pub alias: String,
    pub name: String,
}

/// The text that, typed as the whole query, asks for the namespace `alias`.
pub open spec fn token_of(alias: Seq<char>) -> Seq<char> {
    alias.push(' ')
}

/// The alias that `text` asks for, if `text` has the shape of a token.
pub open spec fn alias_in(text: Seq<char>) -> Option<Seq<char>> {
    if text.len() > 0 && text.last() == ' ' {
        Some(text.drop_last())
    } else {
        None
    }
}

/// The namespaces that a list of entries stands for: a later entry replaces
/// an earlier one with the same alias.
pub open spec fn entries_map(entries: Seq<ModeEntry>) -> Map<Seq<char>, Seq<char>>
    decreases entries.len(),
{
    if entries.len() == 0 {
        Map::empty()
    } else {
        entries_map(entries.drop_last()).insert(entries.last().alias@, entries.last().name@)
    }
}

/// The namespaces that a list of sources brings: one for each alias, named
/// after the last source that carries the alias.
pub open spec fn modes_of(launchers: Seq<Launcher>) -> Map<Seq<char>, Seq<char>>
    decreases launchers.len(),
{
    if launchers.len() == 0 {
        Map::empty()
    } else {
        let rest = modes_of(launchers.drop_last());
        match launchers.last().spec_alias() {
            Some(alias) => rest.insert(alias, launchers.last().spec_name()),
            None => rest,
        }
    }
}

/// An entry that no later entry replaces decides what its alias maps to.
pub proof fn lemma_last_entry_wins(entries: Seq<ModeEntry>, i: int)
    requires
        0 <= i < entries.len(),
        forall|j: int| i < j < entries.len() ==> (#[trigger] entries[j]).alias@ != entries[i].alias@,
    ensures
        entries_map(entries).contains_key(entries[i].alias@),
        entries_map(entries)[entries[i].alias@] == entries[i].name@,
    decreases entries.len(),
{
    if i < entries.len() - 1 {
        let rest = entries.drop_last();
        lemma_last_entry_wins(rest, i);
    }
}

/// An alias that no entry carries is not mapped.
pub proof fn lemma_absent_alias(entries: Seq<ModeEntry>, alias: Seq<char>)
    requires
        forall|j: int| 0 <= j < entries.len() ==> (#[trigger] entries[j]).alias@ != alias,
    ensures
        !entries_map(entries).contains_key(alias),
    decreases entries.len(),
{
    if entries.len() > 0 {
        lemma_absent_alias(entries.drop_last(), alias);
    }
}

/// The namespaces of a session, from alias to shown name.
#[derive(Clone, Debug)]
pub struct ModeRegistry {
    pub entries: Vec<ModeEntry>,
}

impl View for ModeRegistry {
    type V = Map<Seq<char>, Seq<char>>;

    open spec fn view(&self) -> Map<Seq<char>, Seq<char>> {
        entries_map(self.entries@)
    }
}

impl ModeRegistry {
    /// A registry without namespaces.
    pub fn new() -> (r: ModeRegistry)
        ensures
            r@ == Map::<Seq<char>, Seq<char>>::empty(),
    {
        ModeRegistry { entries: Vec::new() }
    }

    /// Adds the namespace `alias` under `name`, in place of an older one with that alias.
    pub fn register(&mut self, alias: String, name: String)
        ensures
            final(self)@ == old(self)@.insert(alias@, name@),
    {
        self.entries.push(ModeEntry { alias, name });
        assert(self.entries@.drop_last() == old(self).entries@);
    }

    /// The name shown for the namespace `alias`, if it is registered.
    pub fn lookup(&self, alias: &String) -> (found: Option<&String>)
        ensures
            found is Some <==> self@.contains_key(alias@),
            found matches Some(name) ==> name@ == self@[alias@],
    {
        let mut i: usize = self.entries.len();
        while i > 0
            invariant
                i <= self.entries.len(),
                forall|j: int| i <= j < self.entries.len() ==> (#[trigger] self.entries[j]).alias@ != alias@,
            decreases i,
        {
            i = i - 1;
            if self.entries[i].alias == *alias {
                proof {
                    lemma_last_entry_wins(self.entries@, i as int);
                }
                return Some(&self.entries[i].name);
            }
        }
        proof {
            lemma_absent_alias(self.entries@, alias@);
        }
        None
    }

    /// Collects the namespaces of the sources of a session.
    pub fn collect(launchers: &Vec<Launcher>) -> (r: ModeRegistry)
        ensures
            r@ == modes_of(launchers@),
    {
        let mut registry = ModeRegistry::new();
        let mut i: usize = 0;
        while i < launchers.len()
            invariant
                i <= launchers.len(),
                registry@ == modes_of(launchers@.take(i as int)),
            decreases launchers.len() - i,
        {
            proof {
                assert(launchers@.take(i + 1).drop_last() == launchers@.take(i as int));
            }
            match launchers[i].alias() {
                Some(alias) => {
                    registry.register(alias.clone(), launchers[i].name().clone());
                },
                None => {},
            }
            i = i + 1;
        }
        proof {
            assert(launchers@.take(launchers.len() as int) == launchers@);
        }
        registry
    }
}

} // verus!
