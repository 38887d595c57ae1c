//! The names under which the shell knows its windows.

use vstd::prelude::*;

verus! {

/// One of the three windows of the shell. A name identifies at most one
/// open window at any time.
#[derive(Clone, Copy, Debug, PartialEq, Eq, Hash, Structural)]
pub enum WindowName {
    /// The splash screen that is showing while the shell starts.
    Index,
    /// The first-run flow.
    Setup,
    /// The application proper.
    Main,
}

impl WindowName {
    /// The label by which the windowing system knows the window.
    pub open spec fn label_spec(self) -> Seq<char> {
        match self {
            WindowName::Index => "index"@,
            WindowName::Setup => "setup"@,
            WindowName::Main => "main"@,
        }
    }

    /// The label by which the windowing system knows the window.
    pub fn label(&self) -> (text: &'static str)
        ensures
            text@ == self.label_spec(),
    {
        match self {
            WindowName::Index => "index",
            WindowName::Setup => "setup",
            WindowName::Main => "main",
        }
    }

    /// Every window name, each once.
    pub fn all() -> (names: [WindowName; 3])
        ensures
            names@ == seq![WindowName::Index, WindowName::Setup, WindowName::Main],
            forall|name: WindowName| names@.contains(name),
    {
        let names = [WindowName::Index, WindowName::Setup, WindowName::Main];
        assert(names@ =~= seq![WindowName::Index, WindowName::Setup, WindowName::Main]);
        assert forall|name: WindowName| names@.contains(name) by {
            match name {
                WindowName::Index => assert(names@[0] == name),
                WindowName::Setup => assert(names@[1] == name),
                WindowName::Main => assert(names@[2] == name),
            }
        }
        names
    }

    /// Different windows have different labels.
    pub proof fn lemma_labels_differ(a: WindowName, b: WindowName)
        ensures
            a.label_spec() == b.label_spec() <==> a == b,
    {
        reveal_strlit("index");
        reveal_strlit("setup");
        reveal_strlit("main");
        if a != b && a.label_spec() == b.label_spec() {
            assert(a.label_spec().len() == b.label_spec().len());
            assert(a.label_spec()[0] == b.label_spec()[0]);
        }
    }
}

} // verus!
