//! The table of command names.
//!
//! A registry is filled once, when the process starts, and only read after
//! that. No name is ever held twice: a second claim on a name is refused when
//! the table is built, so a lookup has at most one answer.

use crate::text::same_text;
use vstd::prelude::*;

verus! {

/// The handlers that a name can stand for.
#[derive(Debug, Clone, Copy, PartialEq, Eq, Structural)]
pub enum Command {
    /// Greets the caller by name.
    Ping,
}

/// Why a name could not be registered.
#[derive(Debug, Clone, Copy, PartialEq, Eq, Structural)]
pub enum RegistryError {
    /// The name already stands for a handler.
    DuplicateName,
}

struct Entry {
    name: String,
    command: Command,
}

/// The names of a registry, each with the handler it stands for.
pub struct Registry {
    entries: Vec<Entry>,
}

/// The table that a list of entries spells, read from first to last.
spec fn table(entries: Seq<Entry>) -> Map<Seq<char>, Command>
    decreases entries.len(),
{
    if entries.len() == 0 {
        Map::empty()
    } else {
        table(entries.drop_last()).insert(entries.last().name@, entries.last().command)
    }
}

/// No two entries share a name.
spec fn distinct_names(entries: Seq<Entry>) -> bool {
    forall|i: int, j: int|
        0 <= i < j < entries.len() ==> (#[trigger] entries[i]).name@ != (#[trigger] entries[j]).name@
}

/// The table holds exactly the names of the entries, and where the names are
/// distinct each name stands for the handler of its entry.
proof fn lemma_table_of_entries(entries: Seq<Entry>, name: Seq<char>)
    ensures
        table(entries).contains_key(name) <==> exists|i: int|
            0 <= i < entries.len() && (#[trigger] entries[i]).name@ == name,
        distinct_names(entries) ==> forall|i: int|
            0 <= i < entries.len() && (#[trigger] entries[i]).name@ == name ==> table(
                entries,
            )[name] == entries[i].command,
    decreases entries.len(),
{
    if entries.len() > 0 {
        let front = entries.drop_last();
        lemma_table_of_entries(front, name);
        assert(forall|i: int| 0 <= i < front.len() ==> front[i] == entries[i]);
        if table(entries).contains_key(name) {
            if entries.last().name@ == name {
                assert(entries[entries.len() - 1].name@ == name);
            } else {
                let i = choose|i: int| 0 <= i < front.len() && (#[trigger] front[i]).name@ == name;
                assert(entries[i].name@ == name);
            }
        }
        if exists|i: int| 0 <= i < entries.len() && (#[trigger] entries[i]).name@ == name {
            let i = choose|i: int| 0 <= i < entries.len() && (#[trigger] entries[i]).name@ == name;
            if i < front.len() {
                assert(front[i].name@ == name);
            }
        }
        if distinct_names(entries) {
            assert(distinct_names(front));
            assert forall|i: int|
                0 <= i < entries.len() && (#[trigger] entries[i]).name@ == name implies table(
                entries,
            )[name] == entries[i].command by {
                if i < front.len() {
                    assert(front[i].name@ == name);
                    assert(entries[i].name@ != entries[entries.len() - 1].name@);
                }
            }
        }
    }
}

impl View for Registry {
    type V = Map<Seq<char>, Command>;

    /// The registry as a table from names to handlers.
    closed spec fn view(&self) -> Map<Seq<char>, Command> {
        table(self.entries@)
    }
}

impl Registry {
    #[verifier::type_invariant]
    spec fn names_are_unique(&self) -> bool {
        distinct_names(self.entries@)
    }

    /// A registry without names.
    pub fn new() -> (registry: Registry)
        ensures
            registry@ == Map::<Seq<char>, Command>::empty(),
    {
        Registry { entries: Vec::new() }
    }

    /// The handler that `name` stands for, if it stands for one.
    pub fn lookup(&self, name: &str) -> (found: Option<Command>)
        ensures
            found == if self@.contains_key(name@) {
                Some(self@[name@])
            } else {
                None
            },
    {
        let mut i: usize = 0;
        while i < self.entries.len()
            invariant
                i <= self.entries.len(),
                forall|j: int| 0 <= j < i ==> (#[trigger] self.entries@[j]).name@ != name@,
            decreases self.entries.len() - i,
        {
            if same_text(self.entries[i].name.as_str(), name) {
                proof {
                    use_type_invariant(self);
                    lemma_table_of_entries(self.entries@, name@);
                }
                return Some(self.entries[i].command);
            }
            i += 1;
        }
        proof {
            lemma_table_of_entries(self.entries@, name@);
        }
        None
    }

    /// Whether `name` stands for a handler.
    pub fn contains(&self, name: &str) -> (held: bool)
        ensures
            held == self@.contains_key(name@),
    {
        self.lookup(name).is_some()
    }

    /// Lets `name` stand for `command`. A name that already stands for a
    /// handler is refused, and the registry stays as it was.
    pub fn register(&mut self, name: &str, command: Command) -> (done: Result<(), RegistryError>)
        ensures
            old(self)@.contains_key(name@) ==> done == Err::<(), RegistryError>(
                RegistryError::DuplicateName,
            ) && final(self)@ == old(self)@,
            !old(self)@.contains_key(name@) ==> done is Ok && final(self)@ == old(self)@.insert(
                name@,
                command,
            ),
    {
        if self.contains(name) {
            return Err(RegistryError::DuplicateName);
        }
        proof {
            use_type_invariant(&*self);
            lemma_table_of_entries(self.entries@, name@);
        }
        let mut entries: Vec<Entry> = Vec::new();
        core::mem::swap(&mut self.entries, &mut entries);
        let ghost before = entries@;
        entries.push(Entry { name: name.to_owned(), command });
        proof {
            assert(entries@.drop_last() =~= before);
        }
        core::mem::swap(&mut self.entries, &mut entries);
        Ok(())
    }

    /// The registry of the shell: the name `ping` stands for the greeting.
    pub fn standard() -> (registry: Registry)
        ensures
            registry@ == Map::<Seq<char>, Command>::empty().insert("ping"@, Command::Ping),
    {
        let mut registry = Registry::new();
        let _ = registry.register("ping", Command::Ping);
        registry
    }
}

} // verus!
