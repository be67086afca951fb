use program_station::tx::{batch_next, insert_start, insert_step, InsertEvent, InsertPhase, InsertStep, TxAction};

#[test]
fn batch_runs_in_order_and_commits() {
    assert_eq!(batch_next(3, &vec![]), TxAction::Execute(0));
    assert_eq!(batch_next(3, &vec![true]), TxAction::Execute(1));
    assert_eq!(batch_next(3, &vec![true, true]), TxAction::Execute(2));
    assert_eq!(batch_next(3, &vec![true, true, true]), TxAction::Commit);
    assert_eq!(batch_next(0, &vec![]), TxAction::Commit);
}

#[test]
fn batch_rolls_back_on_first_failure() {
    assert_eq!(batch_next(3, &vec![false]), TxAction::Rollback);
    assert_eq!(batch_next(3, &vec![true, false]), TxAction::Rollback);
    assert_eq!(batch_next(2, &vec![true, false]), TxAction::Rollback);
}

fn finished(s: InsertStep) -> Result<u32, ()> {
    match s {
        InsertStep::Finished(r) => r,
        InsertStep::Continue(..) => panic!("not finished"),
    }
}

#[test]
fn insertion_returns_new_id() {
    let (p, a) = insert_start();
    assert_eq!((p, a), (InsertPhase::Inserting, TxAction::Execute(0)));
    let InsertStep::Continue(p, a) = insert_step(p, InsertEvent::Succeeded) else { panic!() };
    assert_eq!((p, a), (InsertPhase::ReadingId, TxAction::FetchLastInsertId));
    let InsertStep::Continue(p, a) = insert_step(p, InsertEvent::LastId(Some(41))) else { panic!() };
    assert_eq!((p, a), (InsertPhase::Committing(41), TxAction::Commit));
    assert_eq!(finished(insert_step(p, InsertEvent::Succeeded)), Ok(41));
    assert_eq!(finished(insert_step(InsertPhase::Committing(41), InsertEvent::Failed)), Err(()));
}

#[test]
fn insertion_failures() {
    let InsertStep::Continue(p, a) = insert_step(InsertPhase::Inserting, InsertEvent::Failed) else { panic!() };
    assert_eq!((p, a), (InsertPhase::RollingBack, TxAction::Rollback));
    assert_eq!(finished(insert_step(p, InsertEvent::Succeeded)), Err(()));
    let InsertStep::Continue(p, a) = insert_step(InsertPhase::ReadingId, InsertEvent::LastId(None)) else { panic!() };
    assert_eq!((p, a), (InsertPhase::RollingBack, TxAction::Rollback));
    assert_eq!(finished(insert_step(InsertPhase::ReadingId, InsertEvent::Failed)), Err(()));
}
