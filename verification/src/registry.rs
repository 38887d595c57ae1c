//! The windows that are open, by name.

use vstd::prelude::*;
use crate::error::{CommandError, WindowFailure};
use crate::window_name::WindowName;

verus! {

/// The open windows of the shell. A name stands for at most one window, so
/// the registry is a set of names; it refuses a second window of a name
/// that it holds.
#[derive(Debug)]
pub struct WindowRegistry {
    /// The names of the open windows, each once.
    open: Vec<WindowName>,
}

impl View for WindowRegistry {
    type V = Set<WindowName>;

    closed spec fn view(&self) -> Set<WindowName> {
        self.open@.to_set()
    }
}

impl WindowRegistry {
    #[verifier::type_invariant]
    spec fn each_name_once(self) -> bool {
        self.open@.no_duplicates()
    }

    /// A registry without windows.
    pub fn new() -> (registry: WindowRegistry)
        ensures
            registry@ == Set::<WindowName>::empty(),
    {
        let registry = WindowRegistry { open: Vec::new() };
        assert(registry.open@.to_set() =~= Set::<WindowName>::empty());
        registry
    }

    /// Whether a window of the name `name` is open.
    pub fn is_open(&self, name: WindowName) -> (found: bool)
        ensures
            found == self@.contains(name),
    {
        let mut i: usize = 0;
        while i < self.open.len()
            invariant
                i <= self.open.len(),
                forall|j: int| 0 <= j < i ==> self.open@[j] != name,
            decreases self.open.len() - i,
        {
            if self.open[i] == name {
                return true;
            }
            i += 1;
        }
        false
    }

    /// Takes note of a new window. A name that is open already is refused,
    /// and the registry stays as it was.
    pub fn opened(&mut self, name: WindowName) -> (result: Result<(), CommandError>)
        ensures
            old(self)@.contains(name) ==> final(self)@ == old(self)@ && result == Err::<
                (),
                CommandError,
            >(CommandError::Window(WindowFailure::Duplicate(name))),
            !old(self)@.contains(name) ==> final(self)@ == old(self)@.insert(name) && result
                == Ok::<(), CommandError>(()),
    {
        if self.is_open(name) {
            return Err(CommandError::Window(WindowFailure::Duplicate(name)));
        }
        proof {
            use_type_invariant(&*self);
        }
        let ghost before = self.open@;
        let mut names = self.open.clone();
        assert(names@ =~= before);
        names.push(name);
        proof {
            lemma_push_to_distinct(before, name);
        }
        self.open = names;
        Ok(())
    }

    /// Takes note that the window of the name `name` is gone, whoever closed
    /// it. Says whether it had been open.
    pub fn closed(&mut self, name: WindowName) -> (was_open: bool)
        ensures
            was_open == old(self)@.contains(name),
            final(self)@ == old(self)@.remove(name),
    {
        proof {
            use_type_invariant(&*self);
        }
        let mut i: usize = 0;
        while i < self.open.len()
            invariant
                i <= self.open.len(),
                self.open@ == old(self).open@,
                self.open@.no_duplicates(),
                forall|j: int| 0 <= j < i ==> self.open@[j] != name,
            decreases self.open.len() - i,
        {
            if self.open[i] == name {
                let ghost before = self.open@;
                let mut names = self.open.clone();
                assert(names@ =~= before);
                names.remove(i);
                proof {
                    lemma_remove_from_distinct(before, i as int);
                }
                self.open = names;
                return true;
            }
            i += 1;
        }
        proof {
            assert(!self.open@.contains(name));
            assert(self.open@.to_set() =~= self.open@.to_set().remove(name));
        }
        false
    }

    /// The names of the open windows, each once.
    pub fn open_windows(&self) -> (names: Vec<WindowName>)
        ensures
            names@.no_duplicates(),
            names@.to_set() == self@,
    {
        proof {
            use_type_invariant(self);
        }
        self.open.clone()
    }
}

impl Clone for WindowRegistry {
    fn clone(&self) -> (copy: WindowRegistry)
        ensures
            copy@ == self@,
    {
        proof {
            use_type_invariant(self);
        }
        let names = self.open.clone();
        assert(names@ =~= self.open@);
        WindowRegistry { open: names }
    }
}

/// A name that a list of distinct names lacks can join it at the end.
proof fn lemma_push_to_distinct(names: Seq<WindowName>, name: WindowName)
    requires
        names.no_duplicates(),
        !names.contains(name),
    ensures
        names.push(name).no_duplicates(),
        names.push(name).to_set() == names.to_set().insert(name),
{
    names.lemma_push_to_set_commute(name);
}

/// Taking one name out of a list of distinct names takes just that name out
/// of the set.
proof fn lemma_remove_from_distinct(names: Seq<WindowName>, at: int)
    requires
        names.no_duplicates(),
        0 <= at < names.len(),
    ensures
        names.remove(at).no_duplicates(),
        names.remove(at).to_set() == names.to_set().remove(names[at]),
{
    let shorter = names.remove(at);
    assert forall|n: WindowName| shorter.to_set().contains(n) <==> names.to_set().remove(
        names[at],
    ).contains(n) by {
        if shorter.contains(n) {
            let j = choose|j: int| 0 <= j < shorter.len() && shorter[j] == n;
            if j < at {
                assert(names[j] == n);
            } else {
                assert(names[j + 1] == n);
            }
        }
        if names.contains(n) && n != names[at] {
            let j = choose|j: int| 0 <= j < names.len() && names[j] == n;
            if j < at {
                assert(shorter[j] == n);
            } else {
                assert(shorter[j - 1] == n);
            }
        }
    }
    assert(shorter.to_set() =~= names.to_set().remove(names[at]));
}

} // verus!
