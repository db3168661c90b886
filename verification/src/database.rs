//! Checking the database of a backup.

use vstd::prelude::*;

use crate::error::BackupError;

verus! {

/// The query that checks the integrity of a database.
pub const QUICK_CHECK_QUERY: &'static str = "PRAGMA quick_check";

/// The query that counts the tables of tasks.
pub const TASKS_TABLE_QUERY: &'static str =
    "SELECT COUNT(*) FROM sqlite_master WHERE type = 'table' AND name = 'tasks'";

/// The statement that writes the log of a database back into it.
pub const CHECKPOINT_QUERY: &'static str = "PRAGMA wal_checkpoint(TRUNCATE)";

/// What checking a database wants done next.
#[derive(Debug, PartialEq, Eq)]
pub enum DatabaseStep {
    /// Open the database.
    Connect,
    /// Run the integrity check.
    QuickCheck,
    /// Count the tables of tasks.
    CountTasks,
    /// Close the database.
    Close,
    Done(Result<(), BackupError>),
}

/// What checking a database is told. An error is told in words.
#[derive(Debug, PartialEq, Eq)]
pub enum DatabaseEvent {
    Start,
    Connected(Result<(), String>),
    Checked(Result<Vec<String>, String>),
    Counted(Result<i64, String>),
    Closed(Result<(), String>),
}

/// Whether the rows of an integrity check report no problem.
pub open spec fn is_sound(rows: Seq<String>) -> bool {
    rows.len() == 1 && rows[0]@ == "ok"@
}

/// The step that follows an event: the database has to open, to be sound, to
/// hold one table of tasks, and to close.
pub open spec fn database_next(event: DatabaseEvent) -> DatabaseStep {
    match event {
        DatabaseEvent::Start => DatabaseStep::Connect,
        DatabaseEvent::Connected(Ok(_)) => DatabaseStep::QuickCheck,
        DatabaseEvent::Checked(Ok(rows)) => if is_sound(rows@) {
            DatabaseStep::CountTasks
        } else {
            DatabaseStep::Done(Err(BackupError::QuickCheckFailed(rows)))
        },
        DatabaseEvent::Counted(Ok(tables)) => if tables == 1 {
            DatabaseStep::Close
        } else {
            DatabaseStep::Done(Err(BackupError::MissingTasksTable))
        },
        DatabaseEvent::Closed(Ok(_)) => DatabaseStep::Done(Ok(())),
        DatabaseEvent::Connected(Err(text))
        | DatabaseEvent::Checked(Err(text))
        | DatabaseEvent::Counted(Err(text))
        | DatabaseEvent::Closed(Err(text)) =>
            DatabaseStep::Done(Err(BackupError::UnreadableDatabase(text))),
    }
}

/// Decides what comes next in checking a database.
pub fn validate_database(event: DatabaseEvent) -> (step: DatabaseStep)
    ensures
        step == database_next(event),
{
    match event {
        DatabaseEvent::Start => DatabaseStep::Connect,
        DatabaseEvent::Connected(Ok(())) => DatabaseStep::QuickCheck,
        DatabaseEvent::Checked(Ok(rows)) => {
            if rows.len() == 1 && rows[0] == "ok".to_owned() {
                DatabaseStep::CountTasks
            } else {
                DatabaseStep::Done(Err(BackupError::QuickCheckFailed(rows)))
            }
        },
        DatabaseEvent::Counted(Ok(tables)) => {
            if tables == 1 {
                DatabaseStep::Close
            } else {
                DatabaseStep::Done(Err(BackupError::MissingTasksTable))
            }
        },
        DatabaseEvent::Closed(Ok(())) => DatabaseStep::Done(Ok(())),
        DatabaseEvent::Connected(Err(text)) =>
            DatabaseStep::Done(Err(BackupError::UnreadableDatabase(text))),
        DatabaseEvent::Checked(Err(text)) =>
            DatabaseStep::Done(Err(BackupError::UnreadableDatabase(text))),
        DatabaseEvent::Counted(Err(text)) =>
            DatabaseStep::Done(Err(BackupError::UnreadableDatabase(text))),
        DatabaseEvent::Closed(Err(text)) =>
            DatabaseStep::Done(Err(BackupError::UnreadableDatabase(text))),
    }
}

/// Whether the event is an answer to the step.
pub open spec fn database_answers(step: DatabaseStep, event: DatabaseEvent) -> bool {
    match step {
        DatabaseStep::Connect => event is Connected,
        DatabaseStep::QuickCheck => event is Checked,
        DatabaseStep::CountTasks => event is Counted,
        DatabaseStep::Close => event is Closed,
        DatabaseStep::Done(_) => false,
    }
}

/// Whether the event at `i` answers the step that follows from the one before.
pub open spec fn database_follows(run: Seq<DatabaseEvent>, i: int) -> bool {
    database_answers(database_next(run[i - 1]), run[i])
}

/// Whether the events are those of one check of a database.
pub open spec fn is_database_check(run: Seq<DatabaseEvent>) -> bool {
    &&& run.len() > 0
    &&& run[0] is Start
    &&& forall|i: int| 0 < i < run.len() ==> #[trigger] database_follows(run, i)
}

/// A check accepts a database exactly if it was opened, the integrity check told
/// one row and that row is `ok`, one table of tasks was counted, and it was
/// closed.
pub proof fn accepted_database_is_sound(run: Seq<DatabaseEvent>)
    requires
        is_database_check(run),
    ensures
        (database_next(run.last()) matches DatabaseStep::Done(result) && result is Ok) <==> {
            &&& run.len() == 5
            &&& run[1] matches DatabaseEvent::Connected(opened) && opened is Ok
            &&& run[2] matches DatabaseEvent::Checked(checked) && checked is Ok
                && checked->Ok_0@.len() == 1 && checked->Ok_0@[0]@ == seq!['o', 'k']
            &&& run[3] == DatabaseEvent::Counted(Ok(1))
            &&& run[4] matches DatabaseEvent::Closed(closed) && closed is Ok
        },
{
    reveal_strlit("ok");
    assert("ok"@ =~= seq!['o', 'k']);
    assert(run.len() > 1 ==> database_follows(run, 1));
    assert(run.len() > 2 ==> database_follows(run, 2));
    assert(run.len() > 3 ==> database_follows(run, 3));
    assert(run.len() > 4 ==> database_follows(run, 4));
    assert(run.len() > 5 ==> database_follows(run, 5));
}

/// A database is opened first; it is asked for its tables exactly after an
/// integrity check that told the one row `ok`, and is closed exactly after one
/// table of tasks was counted.
pub proof fn databases_are_asked_in_order(event: DatabaseEvent)
    ensures
        database_next(event) is Connect <==> event is Start,
        database_next(event) is QuickCheck <==> (event matches DatabaseEvent::Connected(result)
            && result is Ok),
        database_next(event) is CountTasks <==> (event matches DatabaseEvent::Checked(Ok(rows))
            && rows@.len() == 1 && rows@[0]@ == seq!['o', 'k']),
        database_next(event) is Close <==> event == DatabaseEvent::Counted(Ok(1)),
        (database_next(event) matches DatabaseStep::Done(result) && result is Ok) <==> (event
            matches DatabaseEvent::Closed(result) && result is Ok),
{
    reveal_strlit("ok");
    assert("ok"@ =~= seq!['o', 'k']);
}

/// A database is refused exactly for what was found: rows of the integrity check
/// that are not the one row `ok`, a count of tables other than one, or what
/// failed, in the words in which it was told.
pub proof fn refused_databases_tell_what_was_found(event: DatabaseEvent, error: BackupError)
    ensures
        database_next(event) == DatabaseStep::Done(Err(error)) <==> {
            ||| event matches DatabaseEvent::Checked(Ok(rows)) && error
                == BackupError::QuickCheckFailed(rows) && !(rows@.len() == 1 && rows@[0]@ == seq![
                'o',
                'k',
            ])
            ||| event matches DatabaseEvent::Counted(Ok(tables)) && tables != 1 && error
                is MissingTasksTable
            ||| error matches BackupError::UnreadableDatabase(text) && {
                ||| event == DatabaseEvent::Connected(Err(text))
                ||| event == DatabaseEvent::Checked(Err(text))
                ||| event == DatabaseEvent::Counted(Err(text))
                ||| event == DatabaseEvent::Closed(Err(text))
            }
        },
{
    reveal_strlit("ok");
    assert("ok"@ =~= seq!['o', 'k']);
}

/// What the database is asked: for a quick check of its integrity, for the count
/// of tables named `tasks`, and to write back and empty its log.
pub proof fn queries_ask_for_what_they_say()
    ensures
        QUICK_CHECK_QUERY@ == "PRAGMA quick_check"@,
        TASKS_TABLE_QUERY@
            == "SELECT COUNT(*) FROM sqlite_master WHERE type = 'table' AND name = 'tasks'"@,
        CHECKPOINT_QUERY@ == "PRAGMA wal_checkpoint(TRUNCATE)"@,
{
}

} // verus!
