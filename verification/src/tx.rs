//! The transactions the service runs: a batch of statements that must all succeed, and
//! an insertion whose new row id is read back. The database work itself is done by the
//! caller, who reports each result and performs the action decided here.

use vstd::prelude::*;

verus! {

/// What the caller does next in a transaction.
#[derive(Debug, Clone, Copy, PartialEq, Eq, Structural)]
pub enum TxAction {
    /// Run the statement at this position of the batch.
    Execute(usize),
    /// Read the id of the row just inserted (`SELECT LAST_INSERT_ID()`).
    FetchLastInsertId,
    /// Commit the transaction.
    Commit,
    /// Roll the transaction back.
    Rollback,
}

/// All results reported so far are successes.
pub open spec fn all_ok(results: Seq<bool>) -> bool {
    forall|i: int| 0 <= i < results.len() ==> #[trigger] results[i]
}

/// The next step of a batch of `len` statements given the results of those run so far:
/// the next statement while all have succeeded, the commit after the last one, and the
/// rollback as soon as one has failed.
pub fn batch_next(len: usize, results: &Vec<bool>) -> (a: TxAction)
    requires
        results.len() <= len,
        forall|i: int| 0 <= i < results.len() - 1 ==> #[trigger] results@[i],
    ensures
        results.len() > 0 && !results@[results.len() - 1] ==> a == TxAction::Rollback,
        all_ok(results@) && results.len() < len ==> a == TxAction::Execute(results.len()),
        all_ok(results@) && results.len() == len ==> a == TxAction::Commit,
        // A batch commits only once every one of its statements has run and succeeded.
        a == TxAction::Commit <==> all_ok(results@) && results.len() == len,
        a == TxAction::Rollback <==> !all_ok(results@),
{
    let n = results.len();
    if n > 0 && !results[n - 1] {
        return TxAction::Rollback;
    }
    assert(all_ok(results@));
    if n < len {
        TxAction::Execute(n)
    } else {
        TxAction::Commit
    }
}

/// Where an insertion that reads back its row id stands.
#[derive(Debug, Clone, Copy, PartialEq, Eq, Structural)]
pub enum InsertPhase {
    /// The insert statement is running.
    Inserting,
    /// The new row id is being read.
    ReadingId,
    /// The commit of the row with this id is running.
    Committing(u32),
    /// The transaction is being rolled back.
    RollingBack,
}

/// What the caller reports back about the action it performed.
#[derive(Debug, Clone, Copy, PartialEq, Eq, Structural)]
pub enum InsertEvent {
    Succeeded,
    Failed,
    /// The id read back, if the database returned one.
    LastId(Option<u32>),
}

/// The next step of an insertion after `event`: the next phase and action, or the
/// insertion's result (`Ok` with the new row id, or `Err`).
pub enum InsertStep {
    Continue(InsertPhase, TxAction),
    Finished(Result<u32, ()>),
}

/// The first step of an insertion: run the insert statement.
pub fn insert_start() -> (r: (InsertPhase, TxAction))
    ensures
        r == (InsertPhase::Inserting, TxAction::Execute(0)),
{
    (InsertPhase::Inserting, TxAction::Execute(0))
}

/// Advances an insertion. A successful insert is followed by reading its id; an id that
/// is found is committed and returned; a missing id or a failed insert is rolled back;
/// a failed commit or rollback ends the insertion with an error.
pub fn insert_step(phase: InsertPhase, event: InsertEvent) -> (r: InsertStep)
    ensures
        match (phase, event) {
            (InsertPhase::Inserting, InsertEvent::Succeeded) =>
                r == InsertStep::Continue(InsertPhase::ReadingId, TxAction::FetchLastInsertId),
            (InsertPhase::Inserting, _) =>
                r == InsertStep::Continue(InsertPhase::RollingBack, TxAction::Rollback),
            (InsertPhase::ReadingId, InsertEvent::LastId(Some(id))) =>
                r == InsertStep::Continue(InsertPhase::Committing(id), TxAction::Commit),
            (InsertPhase::ReadingId, InsertEvent::LastId(None)) =>
                r == InsertStep::Continue(InsertPhase::RollingBack, TxAction::Rollback),
            (InsertPhase::ReadingId, _) => r == InsertStep::Finished(Err(())),
            (InsertPhase::Committing(id), InsertEvent::Succeeded) => r == InsertStep::Finished(Ok(id)),
            (InsertPhase::Committing(_), _) => r == InsertStep::Finished(Err(())),
            (InsertPhase::RollingBack, _) => r == InsertStep::Finished(Err(())),
        },
        // An id is returned only once it was read back and its commit succeeded.
        r matches InsertStep::Finished(Ok(id)) ==> phase == InsertPhase::Committing(id) && event == InsertEvent::Succeeded,
        r matches InsertStep::Continue(InsertPhase::Committing(id), _) ==>
            phase == InsertPhase::ReadingId && event == InsertEvent::LastId(Some(id)),
{
    match (phase, event) {
        (InsertPhase::Inserting, InsertEvent::Succeeded) =>
            InsertStep::Continue(InsertPhase::ReadingId, TxAction::FetchLastInsertId),
        (InsertPhase::Inserting, _) => InsertStep::Continue(InsertPhase::RollingBack, TxAction::Rollback),
        (InsertPhase::ReadingId, InsertEvent::LastId(Some(id))) =>
            InsertStep::Continue(InsertPhase::Committing(id), TxAction::Commit),
        (InsertPhase::ReadingId, InsertEvent::LastId(None)) =>
            InsertStep::Continue(InsertPhase::RollingBack, TxAction::Rollback),
        (InsertPhase::ReadingId, _) => InsertStep::Finished(Err(())),
        (InsertPhase::Committing(id), InsertEvent::Succeeded) => InsertStep::Finished(Ok(id)),
        (InsertPhase::Committing(_), _) => InsertStep::Finished(Err(())),
        (InsertPhase::RollingBack, _) => InsertStep::Finished(Err(())),
    }
}

/// A run of results is all successes exactly when each of its results is one; adding a
/// result keeps it so only when that result is a success.
pub proof fn lemma_all_ok_by_result(results: Seq<bool>, b: bool)
    ensures
        all_ok(Seq::<bool>::empty()),
        all_ok(results) <==> forall|i: int| 0 <= i < results.len() ==> results[i],
        all_ok(results.push(b)) <==> all_ok(results) && b,
{
    if all_ok(results.push(b)) {
        assert(results.push(b)[results.len() as int] == b);
        assert forall|i: int| 0 <= i < results.len() implies #[trigger] results[i] by {
            assert(results.push(b)[i] == results[i]);
        }
    }
    if all_ok(results) && b {
        assert forall|i: int| 0 <= i < results.push(b).len() implies #[trigger] results.push(b)[i] by {
            if i < results.len() {
                assert(results.push(b)[i] == results[i]);
            }
        }
    }
}

} // verus!
