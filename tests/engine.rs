use oe_update_db::engine::{confirm, is_agreement, Action, Event, Stage, AGREEMENT_SENTENCE};
use oe_update_db::error::Error;
use oe_update_db::marker::marker_text;

fn io_error() -> std::io::Error {
    std::io::Error::new(std::io::ErrorKind::Other, "disk gone")
}

fn resolved(marker: &[u8]) -> Stage {
    let stage = Stage::new().advance(Event::MarkerRead(Ok(marker.to_vec())));
    assert!(matches!(stage.action(), Action::Confirm { .. }));
    stage
}

#[test]
fn agreement_sentence_is_exact() {
    assert!(is_agreement(AGREEMENT_SENTENCE));
    assert!(is_agreement("I AGREE"));
    assert!(!is_agreement(" I AGREE"));
    assert!(!is_agreement("i agree"));
    assert!(!is_agreement("I AGREED"));
    assert!(!is_agreement(""));
}

#[test]
fn confirm_trims_whitespace_only() {
    assert!(confirm("I AGREE\n"));
    assert!(confirm("  I AGREE \t\r\n"));
    assert!(!confirm("I  AGREE\n"));
    assert!(!confirm("i agree\n"));
    assert!(!confirm("\n"));
    assert!(!confirm("yes"));
}

#[test]
fn legacy_run_walks_every_stage() {
    let mut stage = resolved(b"13");
    assert_eq!(stage.action(), Action::Confirm { from: 13, to: 16 });
    stage = stage.advance(Event::Answer("I AGREE\n".to_string()));
    assert_eq!(stage.action(), Action::OpenStore { columns: 8 });
    stage = stage.advance(Event::StoreOpened(Ok(())));
    assert_eq!(stage.action(), Action::Purge { column: 5 });
    stage = stage.advance(Event::StepDone(Ok(())));
    assert_eq!(stage.action(), Action::DropTrailingColumn);
    stage = stage.advance(Event::StepDone(Ok(())));
    assert_eq!(stage.action(), Action::WriteMarker { version: 16 });
    stage = stage.advance(Event::MarkerWritten(Ok(())));
    assert_eq!(stage.action(), Action::Finish);
    assert!(matches!(stage.outcome(), Some(Ok(()))));
}

#[test]
fn parity_2_7_run_drops_two_columns_after_the_purge() {
    let mut stage = resolved(b"14");
    stage = stage.advance(Event::Answer("I AGREE".to_string()));
    assert_eq!(stage.action(), Action::OpenStore { columns: 9 });
    stage = stage.advance(Event::StoreOpened(Ok(())));
    let mut actions = Vec::new();
    while let a @ (Action::Purge { .. } | Action::DropTrailingColumn) = stage.action() {
        actions.push(a);
        stage = stage.advance(Event::StepDone(Ok(())));
    }
    assert_eq!(
        actions,
        vec![Action::Purge { column: 5 }, Action::DropTrailingColumn, Action::DropTrailingColumn]
    );
    assert_eq!(stage.action(), Action::WriteMarker { version: 16 });
}

#[test]
fn current_marker_is_done_without_prompt() {
    let stage = Stage::new().advance(Event::MarkerRead(Ok(b"16".to_vec())));
    assert_eq!(stage.action(), Action::Finish);
    assert!(matches!(stage.outcome(), Some(Ok(()))));
}

#[test]
fn rerun_after_completed_run_is_done() {
    let written = marker_text(16);
    let stage = Stage::new().advance(Event::MarkerRead(Ok(written)));
    assert_eq!(stage.action(), Action::Finish);
    assert!(matches!(stage.outcome(), Some(Ok(()))));
}

#[test]
fn rerun_after_interrupted_run_starts_the_plan_again() {
    // The marker is written last, so an interrupted run leaves "13" behind.
    let mut stage = resolved(b"13");
    stage = stage.advance(Event::Answer("I AGREE".to_string()));
    stage = stage.advance(Event::StoreOpened(Ok(())));
    stage = stage.advance(Event::StepDone(Err(io_error())));
    assert!(matches!(stage.outcome(), Some(Err(Error::Io(_)))));
    let again = resolved(b"13");
    assert_eq!(again.action(), Action::Confirm { from: 13, to: 16 });
}

#[test]
fn missing_marker_is_unknown_version() {
    let stage = Stage::new().advance(Event::MarkerRead(Err("cannot open".to_string())));
    assert_eq!(stage.action(), Action::Finish);
    match stage.outcome() {
        Some(Err(Error::UnknownDatabaseVersion(why))) => assert_eq!(why, "cannot open"),
        _ => panic!("expected an unknown version"),
    }
}

#[test]
fn unparsable_marker_is_unknown_version() {
    let stage = Stage::new().advance(Event::MarkerRead(Ok(b"sixteen".to_vec())));
    assert_eq!(stage.action(), Action::Finish);
    assert!(matches!(stage.outcome(), Some(Err(Error::UnknownDatabaseVersion(_)))));
}

#[test]
fn unknown_marker_value_is_unsupported() {
    let stage = Stage::new().advance(Event::MarkerRead(Ok(b"12".to_vec())));
    assert_eq!(stage.action(), Action::Finish);
    assert!(matches!(stage.outcome(), Some(Err(Error::UnsupportedDatabaseVersion(12)))));
}

#[test]
fn refusal_cancels_before_the_store_opens() {
    for answer in ["", "\n", "no", "i agree", "I AGREE!", "I-AGREE"] {
        let stage = resolved(b"15").advance(Event::Answer(answer.to_string()));
        assert_eq!(stage.action(), Action::Finish);
        assert!(matches!(stage.outcome(), Some(Err(Error::Cancelled))));
    }
}

#[test]
fn store_open_failure_is_io() {
    let stage = resolved(b"15")
        .advance(Event::Answer("I AGREE".to_string()))
        .advance(Event::StoreOpened(Err(io_error())));
    assert_eq!(stage.action(), Action::Finish);
    assert!(matches!(stage.outcome(), Some(Err(Error::Io(_)))));
}

#[test]
fn marker_write_failure_is_io() {
    let mut stage = resolved(b"15").advance(Event::Answer("I AGREE".to_string()));
    stage = stage.advance(Event::StoreOpened(Ok(())));
    stage = stage.advance(Event::StepDone(Ok(())));
    stage = stage.advance(Event::StepDone(Ok(())));
    assert_eq!(stage.action(), Action::WriteMarker { version: 16 });
    let stage = stage.advance(Event::MarkerWritten(Err(io_error())));
    assert!(matches!(stage.outcome(), Some(Err(Error::Io(_)))));
}

#[test]
fn unexpected_event_leaves_the_stage() {
    let stage = Stage::new().advance(Event::Answer("I AGREE".to_string()));
    assert_eq!(stage.action(), Action::ReadMarker);
    assert!(stage.outcome().is_none());
}

#[test]
fn error_messages() {
    assert_eq!(Error::Cancelled.message(), "Migration cancelled.");
    assert_eq!(
        Error::UnknownDatabaseVersion("cannot open".to_string()).message(),
        "Current database version cannot be read. Check if folder exists."
    );
    assert_eq!(
        Error::UnsupportedDatabaseVersion(3).message(),
        "Current database version `3` is not supported"
    );
    assert_eq!(
        Error::UnsupportedDatabaseVersion(4294967295).message(),
        "Current database version `4294967295` is not supported"
    );
    assert_eq!(Error::Io(io_error()).message(), "Unexpected io error on DB migration");
}

#[test]
fn confirm_accepts_unicode_white_space_padding() {
    assert!(confirm("\u{a0}I AGREE\u{3000}\u{2028}"));
    assert!(!confirm("\u{200b}I AGREE"));
}
