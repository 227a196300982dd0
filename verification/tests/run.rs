use batch_rs::{
    confirms, payload, Batch, Cell, Column, FromPostgresRow, RawRow, RunAction, RunError,
    RunEvent, RunRequest, RunState, Timestamp, WatchfolderMsg,
};

fn instant(secs: i64) -> Timestamp {
    Timestamp::new(secs, 0).unwrap()
}

fn col(name: &str, value: Cell) -> Column {
    Column { name: String::from(name), value }
}

fn txt(value: &str) -> Cell {
    Cell::Text(String::from(value))
}

fn row_of_batch() -> RawRow {
    RawRow {
        columns: vec![
            col("row_id", Cell::Int4(7)),
            col("batch_id", txt("QAS-BD-OR-123abc")),
            col("description", txt("a batch")),
            col("cp_id", txt("OR-123abc")),
            col("status", txt("new")),
            col("host", txt("ftp.example.org")),
            col("path", txt("/incoming/batch-7")),
            col("created_at", Cell::Time(instant(1640995200))),
        ],
    }
}

fn row_of_record(id: i32, filename: &str) -> RawRow {
    RawRow {
        columns: vec![
            col("row_id", Cell::Int4(id)),
            col("batch_row_id", Cell::Int4(7)),
            col("dc_identifier_localid", txt("local")),
            col("dc_title", txt("A title")),
            col("filename", txt(filename)),
            col("filesize", Cell::Int8(1024)),
            col("md5_hash", txt("0cc175b9c0f1b6a831c399e269772661")),
            col("created_at", Cell::Time(instant(1640995200))),
            col("last_modified_at", Cell::Time(instant(1641000000))),
        ],
    }
}

fn request(local_id: Option<&str>) -> RunRequest {
    RunRequest { batch_id: String::from("QAS-BD-OR-123abc"), local_id: local_id.map(String::from) }
}

fn the_batch() -> Batch {
    Batch::from_postgres_row(&row_of_batch()).unwrap()
}

fn body(filename: &str, id: i32, now: Timestamp) -> String {
    payload(&the_batch(), &row_of_record(id, filename), now).unwrap()
}

fn awaiting(rows: Vec<RawRow>) -> RunState {
    RunState::AwaitingConfirmation { batch: the_batch(), rows }
}

#[test]
fn run_begins_by_looking_up_the_batch() {
    let (state, action) = RunState::begin(request(Some("local-9")));
    assert_eq!(state, RunState::Idle { request: request(Some("local-9")) });
    assert_eq!(action, RunAction::LookUpBatch { batch_id: String::from("QAS-BD-OR-123abc") });
    assert!(!state.is_over());
}

#[test]
fn full_run_publishes_every_record_in_order() {
    let t0 = instant(1650000000);
    let rows = vec![row_of_record(1, "a.tif"), row_of_record(2, "b.tif"), row_of_record(3, "c.tif")];
    let (state, _) = RunState::begin(request(None));

    let (state, action) = state.step(RunEvent::BatchRows { rows: vec![row_of_batch()] }, t0);
    assert_eq!(state, RunState::BatchResolved { batch: the_batch() });
    assert_eq!(action, RunAction::EnumerateRecords { batch_row_id: 7, local_id: None });

    let (state, action) = state.step(RunEvent::RecordRows { rows: rows.clone() }, t0);
    assert_eq!(state, RunState::RecordsEnumerated { batch: the_batch(), rows: rows.clone() });
    assert_eq!(
        action,
        RunAction::ReportCount { batch_id: String::from("QAS-BD-OR-123abc"), count: 3 }
    );

    let (state, action) = state.step(RunEvent::Reported, t0);
    assert_eq!(state, awaiting(rows.clone()));
    assert_eq!(action, RunAction::AskConfirmation);

    let t1 = instant(1650000001);
    let (state, action) = state.step(RunEvent::Answer { line: String::from("y\n") }, t1);
    assert_eq!(
        state,
        RunState::Publishing { batch: the_batch(), rows: rows.clone(), published: 0 }
    );
    assert_eq!(action, RunAction::Publish { payload: body("a.tif", 1, t1) });

    let t2 = instant(1650000002);
    let (state, action) = state.step(RunEvent::Published, t2);
    assert_eq!(
        state,
        RunState::Publishing { batch: the_batch(), rows: rows.clone(), published: 1 }
    );
    assert_eq!(action, RunAction::Publish { payload: body("b.tif", 2, t2) });

    let t3 = instant(1650000003);
    let (state, action) = state.step(RunEvent::Published, t3);
    assert_eq!(
        state,
        RunState::Publishing { batch: the_batch(), rows: rows.clone(), published: 2 }
    );
    assert_eq!(action, RunAction::Publish { payload: body("c.tif", 3, t3) });
    assert!(!state.is_over());

    let (state, action) = state.step(RunEvent::Published, t3);
    assert_eq!(state, RunState::Completed { published: 3 });
    assert_eq!(action, RunAction::Stop);
    assert!(state.is_over());
}

#[test]
fn local_identifier_is_passed_on_to_the_enumeration() {
    let (state, _) = RunState::begin(request(Some("local-9")));
    let (_, action) =
        state.step(RunEvent::BatchRows { rows: vec![row_of_batch()] }, instant(1650000000));
    assert_eq!(
        action,
        RunAction::EnumerateRecords { batch_row_id: 7, local_id: Some(String::from("local-9")) }
    );
}

#[test]
fn payload_is_the_json_of_the_assembled_message() {
    let now = instant(1650000000);
    let record = batch_rs::BatchRecord::from_postgres_row(&row_of_record(1, "a.tif")).unwrap();
    let message = WatchfolderMsg::new(&the_batch(), &record, now).unwrap();
    assert_eq!(body("a.tif", 1, now), message.to_json());
    assert!(body("a.tif", 1, now).contains("\"file_name\":\"a.xml\""));
}

#[test]
fn absent_batch_fails_the_run_with_not_found() {
    let (state, _) = RunState::begin(request(None));
    let (state, action) = state.step(RunEvent::BatchRows { rows: vec![] }, instant(1650000000));
    assert_eq!(state, RunState::Failed { error: RunError::NotFound, published: 0 });
    assert_eq!(action, RunAction::Stop);
    assert!(state.is_over());
}

#[test]
fn batch_found_twice_fails_the_run_with_ambiguous() {
    let (state, _) = RunState::begin(request(None));
    let (state, action) = state.step(
        RunEvent::BatchRows { rows: vec![row_of_batch(), row_of_batch()] },
        instant(1650000000),
    );
    assert_eq!(state, RunState::Failed { error: RunError::Ambiguous, published: 0 });
    assert_eq!(action, RunAction::Stop);
}

#[test]
fn batch_row_without_a_field_fails_the_run() {
    let mut row = row_of_batch();
    row.columns.remove(0);
    let (state, _) = RunState::begin(request(None));
    let (state, action) = state.step(RunEvent::BatchRows { rows: vec![row] }, instant(1650000000));
    assert_eq!(
        state,
        RunState::Failed {
            error: RunError::MissingField { column: String::from("row_id") },
            published: 0
        }
    );
    assert_eq!(action, RunAction::Stop);
}

#[test]
fn run_without_records_completes_with_nothing_published() {
    let now = instant(1650000000);
    for line in ["y", "n", ""] {
        let state = RunState::BatchResolved { batch: the_batch() };
        let (state, action) = state.step(RunEvent::RecordRows { rows: vec![] }, now);
        assert_eq!(
            action,
            RunAction::ReportCount { batch_id: String::from("QAS-BD-OR-123abc"), count: 0 }
        );
        let (state, action) = state.step(RunEvent::Reported, now);
        assert_eq!(action, RunAction::AskConfirmation);
        let (state, action) = state.step(RunEvent::Answer { line: String::from(line) }, now);
        assert_eq!(state, RunState::Completed { published: 0 });
        assert_eq!(action, RunAction::Stop);
    }
}

#[test]
fn any_answer_but_yes_publishes_nothing() {
    let now = instant(1650000000);
    for line in ["n", "", "\n", "yes", "Y", "y y", "no", "yy", " n ", "ja", "1"] {
        let state = awaiting(vec![row_of_record(1, "a.tif"), row_of_record(2, "b.tif")]);
        let (state, action) = state.step(RunEvent::Answer { line: String::from(line) }, now);
        assert_eq!(state, RunState::Completed { published: 0 });
        assert_eq!(action, RunAction::Stop);
    }
}

#[test]
fn yes_may_stand_in_white_space() {
    for line in ["y", "y\n", "y\r\n", " y", "\ty \n", "\u{a0}y\u{2003}"] {
        assert!(confirms(line), "{:?}", line);
        assert_eq!(line.trim(), "y");
    }
    for line in ["", " ", "n", "yes", "Y", "y y", "yy", "y.", "\u{200b}y"] {
        assert!(!confirms(line), "{:?}", line);
        assert_ne!(line.trim(), "y");
    }
}

#[test]
fn rejected_message_fails_the_run_and_keeps_the_count() {
    let now = instant(1650000000);
    let rows = vec![row_of_record(1, "a.tif"), row_of_record(2, "b.tif")];
    let (state, _) = awaiting(rows).step(RunEvent::Answer { line: String::from("y") }, now);
    let (state, action) = state.step(RunEvent::Rejected, now);
    assert_eq!(state, RunState::Failed { error: RunError::TransportFailure, published: 0 });
    assert_eq!(action, RunAction::Stop);

    let rows = vec![row_of_record(1, "a.tif"), row_of_record(2, "b.tif")];
    let (state, _) = awaiting(rows).step(RunEvent::Answer { line: String::from("y") }, now);
    let (state, _) = state.step(RunEvent::Published, now);
    let (state, action) = state.step(RunEvent::Rejected, now);
    assert_eq!(state, RunState::Failed { error: RunError::TransportFailure, published: 1 });
    assert_eq!(action, RunAction::Stop);
}

#[test]
fn record_that_does_not_map_aborts_the_rest() {
    let now = instant(1650000000);
    let mut bad = row_of_record(2, "b.tif");
    bad.columns.retain(|c| c.name != "md5_hash");
    let rows = vec![row_of_record(1, "a.tif"), bad, row_of_record(3, "c.tif")];
    let (state, action) = awaiting(rows).step(RunEvent::Answer { line: String::from("y") }, now);
    assert_eq!(action, RunAction::Publish { payload: body("a.tif", 1, now) });
    let (state, action) = state.step(RunEvent::Published, now);
    assert_eq!(
        state,
        RunState::Failed {
            error: RunError::MissingField { column: String::from("md5_hash") },
            published: 1
        }
    );
    assert_eq!(action, RunAction::Stop);
}

#[test]
fn record_without_file_name_aborts_the_run() {
    let now = instant(1650000000);
    let rows = vec![row_of_record(1, ""), row_of_record(2, "b.tif")];
    let (state, action) = awaiting(rows).step(RunEvent::Answer { line: String::from("y") }, now);
    assert_eq!(state, RunState::Failed { error: RunError::DerivationFailure, published: 0 });
    assert_eq!(action, RunAction::Stop);
    assert_eq!(
        payload(&the_batch(), &row_of_record(1, ".."), now),
        Err(RunError::DerivationFailure)
    );
}

#[test]
fn event_out_of_turn_fails_the_run() {
    let now = instant(1650000000);
    let (state, _) = RunState::begin(request(None));
    let (state, action) = state.step(RunEvent::Published, now);
    assert_eq!(state, RunState::Failed { error: RunError::UnexpectedEvent, published: 0 });
    assert_eq!(action, RunAction::Stop);

    let rows = vec![row_of_record(1, "a.tif"), row_of_record(2, "b.tif")];
    let (state, _) = awaiting(rows).step(RunEvent::Answer { line: String::from("y") }, now);
    let (state, _) = state.step(RunEvent::Published, now);
    let (state, action) = state.step(RunEvent::Reported, now);
    assert_eq!(state, RunState::Failed { error: RunError::UnexpectedEvent, published: 1 });
    assert_eq!(action, RunAction::Stop);

    let state = RunState::BatchResolved { batch: the_batch() };
    let (state, _) = state.step(RunEvent::Answer { line: String::from("y") }, now);
    assert_eq!(state, RunState::Failed { error: RunError::UnexpectedEvent, published: 0 });
}

#[test]
fn run_that_is_over_stays_over() {
    let now = instant(1650000000);
    let events = || {
        vec![
            RunEvent::BatchRows { rows: vec![row_of_batch()] },
            RunEvent::RecordRows { rows: vec![] },
            RunEvent::Reported,
            RunEvent::Answer { line: String::from("y") },
            RunEvent::Published,
            RunEvent::Rejected,
        ]
    };
    for event in events() {
        let (state, action) = RunState::Completed { published: 2 }.step(event, now);
        assert_eq!(state, RunState::Completed { published: 2 });
        assert_eq!(action, RunAction::Stop);
    }
    for event in events() {
        let failed = RunState::Failed { error: RunError::TransportFailure, published: 1 };
        let (state, action) = failed.clone().step(event, now);
        assert_eq!(state, failed);
        assert_eq!(action, RunAction::Stop);
    }
}

#[test]
fn single_record_run_completes_after_one_message() {
    let now = instant(1650000000);
    let rows = vec![row_of_record(1, "only.tif")];
    let (state, action) = awaiting(rows).step(RunEvent::Answer { line: String::from(" y ") }, now);
    assert_eq!(action, RunAction::Publish { payload: body("only.tif", 1, now) });
    let (state, action) = state.step(RunEvent::Published, now);
    assert_eq!(state, RunState::Completed { published: 1 });
    assert_eq!(action, RunAction::Stop);
}

#[test]
fn yes_is_the_line_that_trims_to_y() {
    let alphabet = ['y', 'n', ' ', '\n', '\t', 'Y'];
    let mut words = vec![String::new()];
    let mut last = vec![String::new()];
    for _ in 0..5 {
        let mut next = Vec::new();
        for word in &last {
            for c in alphabet {
                let mut longer = word.clone();
                longer.push(c);
                next.push(longer);
            }
        }
        words.extend(next.iter().cloned());
        last = next;
    }
    assert_eq!(words.len(), 9331);
    for word in words {
        assert_eq!(confirms(&word), word.trim() == "y", "{:?}", word);
    }
}
