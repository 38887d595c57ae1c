//! The schema migrations of the shell's databases.
//!
//! This module lists; it runs nothing. The runner keeps, for each database,
//! the version that it has applied, and at startup runs the migrations of
//! a greater version, in ascending order, each once; it ends at the
//! greatest version, so that a second start finds nothing to run. The lists
//! here are in ascending order and hold no version twice: the runner goes
//! through them as they are written.

use vstd::prelude::*;

verus! {

/// The direction of a migration. The schema only moves forward.
#[derive(Clone, Copy, Debug, PartialEq, Eq, Structural)]
pub enum MigrationKind {
    Up,
}

/// One versioned script of one database.
#[derive(Clone, Copy, Debug, PartialEq, Eq)]
pub struct Migration {
    pub version: i64,
    pub description: &'static str,
    /// The script, in SQL.
    pub sql: &'static str,
    pub kind: MigrationKind,
}

/// A `Migration` as a mathematical value.
pub ghost struct MigrationView {
    pub version: int,
    pub description: Seq<char>,
    pub sql: Seq<char>,
    pub kind: MigrationKind,
}

impl View for Migration {
    type V = MigrationView;

    open spec fn view(&self) -> MigrationView {
        MigrationView {
            version: self.version as int,
            description: self.description@,
            sql: self.sql@,
            kind: self.kind,
        }
    }
}

/// The databases of the shell.
#[derive(Clone, Copy, Debug, PartialEq, Eq, Hash, Structural)]
pub enum Database {
    Main,
    Chat,
}

/// The list is in order: versions are positive and each is greater than the
/// one before, so that none comes twice.
pub open spec fn ascending(list: Seq<MigrationView>) -> bool {
    &&& forall|i: int| 0 <= i < list.len() ==> (#[trigger] list[i]).version >= 1
    &&& forall|i: int, j: int|
        0 <= i < j < list.len() ==> (#[trigger] list[i]).version < (#[trigger] list[j]).version
}

/// Whether the runner of a database at version `applied` has to run `step`.
pub open spec fn is_pending(step: MigrationView, applied: int) -> bool {
    step.version > applied
}

/// The version of a database that was at `applied`, once the runner has
/// run what was pending of `list`: the greatest of `applied` and the
/// versions of the list, in whatever order the list holds them.
pub open spec fn applied_after(list: Seq<MigrationView>, applied: int) -> int
    decreases list.len(),
{
    if list.len() == 0 {
        applied
    } else {
        let before = applied_after(list.drop_last(), applied);
        if list.last().version > before {
            list.last().version
        } else {
            before
        }
    }
}

/// The migrations of the main database: the first creates the schema with
/// the script `create_schema`, the second inserts the default rubric with
/// the script `default_rubric`.
pub open spec fn main_list(create_schema: Seq<char>, default_rubric: Seq<char>) -> Seq<
    MigrationView,
> {
    seq![
        MigrationView {
            version: 1,
            description: "creates the database schema."@,
            sql: create_schema,
            kind: MigrationKind::Up,
        },
        MigrationView {
            version: 2,
            description: "inserts default rubric."@,
            sql: default_rubric,
            kind: MigrationKind::Up,
        },
    ]
}

/// The migrations of the chat database: the one there is creates the
/// tables of conversations and messages with the script `create_tables`.
pub open spec fn chat_list(create_tables: Seq<char>) -> Seq<MigrationView> {
    seq![
        MigrationView {
            version: 1,
            description: "creates the conversation and message tables."@,
            sql: create_tables,
            kind: MigrationKind::Up,
        },
    ]
}

/// The views of the migrations of a list, in its order.
pub open spec fn views(list: Seq<Migration>) -> Seq<MigrationView> {
    list.map_values(|step: Migration| step@)
}

impl Database {
    /// The address under which the runner knows the database.
    pub open spec fn url_spec(self) -> Seq<char> {
        match self {
            Database::Main => "sqlite:main.db"@,
            Database::Chat => "sqlite:chat.db"@,
        }
    }

    /// The address under which the runner knows the database.
    pub fn url(&self) -> (text: &'static str)
        ensures
            text@ == self.url_spec(),
    {
        match self {
            Database::Main => "sqlite:main.db",
            Database::Chat => "sqlite:chat.db",
        }
    }
}

/// The migrations of the main database, in order, with the scripts that
/// the caller supplies.
pub fn main_migrations(create_schema: &'static str, default_rubric: &'static str) -> (list: Vec<
    Migration,
>)
    ensures
        views(list@) == main_list(create_schema@, default_rubric@),
        ascending(views(list@)),
{
    let list = vec![
        Migration {
            version: 1,
            description: "creates the database schema.",
            sql: create_schema,
            kind: MigrationKind::Up,
        },
        Migration {
            version: 2,
            description: "inserts default rubric.",
            sql: default_rubric,
            kind: MigrationKind::Up,
        },
    ];
    assert(views(list@) =~= main_list(create_schema@, default_rubric@));
    list
}

/// The migrations of the chat database, in order, with the script that
/// the caller supplies.
pub fn chat_migrations(create_tables: &'static str) -> (list: Vec<Migration>)
    ensures
        views(list@) == chat_list(create_tables@),
        ascending(views(list@)),
{
    let list = vec![
        Migration {
            version: 1,
            description: "creates the conversation and message tables.",
            sql: create_tables,
            kind: MigrationKind::Up,
        },
    ];
    assert(views(list@) =~= chat_list(create_tables@));
    list
}

/// The version after a run is the greatest of where the database was and
/// the versions of the list: it is none below, and it is one of them.
pub proof fn lemma_applied_after_is_greatest(list: Seq<MigrationView>, applied: int)
    ensures
        applied_after(list, applied) >= applied,
        forall|i: int|
            0 <= i < list.len() ==> (#[trigger] list[i]).version <= applied_after(list, applied),
        applied_after(list, applied) == applied || exists|i: int|
            0 <= i < list.len() && (#[trigger] list[i]).version == applied_after(list, applied),
    decreases list.len(),
{
    if list.len() > 0 {
        let shorter = list.drop_last();
        lemma_applied_after_is_greatest(shorter, applied);
        assert forall|i: int| 0 <= i < list.len() implies (#[trigger] list[i]).version
            <= applied_after(list, applied) by {
            if i < shorter.len() {
                assert(shorter[i] == list[i]);
            }
        }
        if applied_after(list, applied) != applied {
            if list.last().version > applied_after(shorter, applied) {
                assert(list[list.len() - 1].version == applied_after(list, applied));
            } else {
                let i = choose|i: int|
                    0 <= i < shorter.len() && (#[trigger] shorter[i]).version == applied_after(
                        shorter,
                        applied,
                    );
                assert(list[i] == shorter[i]);
            }
        }
    }
}

/// A database that is at or beyond every version of the list stays where
/// it is.
pub proof fn lemma_nothing_pending_changes_nothing(list: Seq<MigrationView>, applied: int)
    requires
        forall|i: int| 0 <= i < list.len() ==> !is_pending(#[trigger] list[i], applied),
    ensures
        applied_after(list, applied) == applied,
    decreases list.len(),
{
    if list.len() > 0 {
        let shorter = list.drop_last();
        assert forall|i: int| 0 <= i < shorter.len() implies !is_pending(
            #[trigger] shorter[i],
            applied,
        ) by {
            assert(shorter[i] == list[i]);
        }
        lemma_nothing_pending_changes_nothing(shorter, applied);
        assert(!is_pending(list[list.len() - 1], applied));
    }
}

/// On a list that is in order the runner ends at the last version, where
/// that was still to run, and stays where it was otherwise.
pub proof fn lemma_ascending_ends_at_last(list: Seq<MigrationView>, applied: int)
    requires
        ascending(list),
        list.len() > 0,
    ensures
        applied_after(list, applied) == if list.last().version > applied {
            list.last().version
        } else {
            applied
        },
{
    lemma_applied_after_is_greatest(list, applied);
    assert(list[list.len() - 1].version <= applied_after(list, applied));
    if applied_after(list, applied) != applied {
        let i = choose|i: int|
            0 <= i < list.len() && (#[trigger] list[i]).version == applied_after(list, applied);
        if i < list.len() - 1 {
            assert(list[i].version < list[list.len() - 1].version);
        }
    }
}

/// Once the runner has run a list, nothing of the list is pending: a
/// second run is a no-op and leaves the version where it is.
pub proof fn lemma_second_run_is_noop(list: Seq<MigrationView>, applied: int)
    ensures
        forall|i: int|
            0 <= i < list.len() ==> !is_pending(#[trigger] list[i], applied_after(list, applied)),
        applied_after(list, applied_after(list, applied)) == applied_after(list, applied),
{
    lemma_applied_after_is_greatest(list, applied);
    lemma_nothing_pending_changes_nothing(list, applied_after(list, applied));
}

/// Both databases, whatever their scripts and whatever version they are at:
/// the list is in order, and a second start finds nothing to run.
pub proof fn lemma_every_database_runs_once(
    create_schema: Seq<char>,
    default_rubric: Seq<char>,
    create_tables: Seq<char>,
    applied: int,
)
    ensures
        ascending(main_list(create_schema, default_rubric)),
        ascending(chat_list(create_tables)),
        forall|i: int|
            0 <= i < main_list(create_schema, default_rubric).len() ==> !is_pending(
                #[trigger] main_list(create_schema, default_rubric)[i],
                applied_after(main_list(create_schema, default_rubric), applied),
            ),
        forall|i: int|
            0 <= i < chat_list(create_tables).len() ==> !is_pending(
                #[trigger] chat_list(create_tables)[i],
                applied_after(chat_list(create_tables), applied),
            ),
{
    lemma_second_run_is_noop(main_list(create_schema, default_rubric), applied);
    lemma_second_run_is_noop(chat_list(create_tables), applied);
}

/// In a list that is in order, what is pending at any version is the end
/// of the list: the runner goes through it without a gap, no version
/// twice.
pub proof fn lemma_pending_is_a_suffix(list: Seq<MigrationView>, applied: int, i: int, j: int)
    requires
        ascending(list),
        0 <= i <= j < list.len(),
        is_pending(list[i], applied),
    ensures
        is_pending(list[j], applied),
{
}

} // verus!
