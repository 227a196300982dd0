//! The run that starts a batch, as a state machine.
//!
//! The caller owns the catalog, the terminal and the transport. It hands the
//! run what they gave, as an event, and gets back what to do next, as an
//! action: look up the batch, list its records, show their number, ask the
//! operator, publish a message, or stop. The run decides; it does nothing
//! itself.

use vstd::prelude::*;
use crate::catalog::{
    Batch,
    BatchRecord,
    BatchView,
    FromPostgresRow,
    batch_of_row,
    record_of_row,
    resolve_batch,
    resolved,
};
use crate::error::{RunError, RunErrorView};
use crate::message::{WatchfolderMsg, assembled, message_json};
use crate::row::{ColumnView, RawRow, row_views};
use crate::text::{chars_of, is_white_space, white_space};
use crate::timestamp::Timestamp;

verus! {

/// What a run is asked for: the batch, by its identifier, and, if only one
/// item is to be started, the local identifier of that item.
#[derive(Clone, Debug, PartialEq, Eq)]
pub struct RunRequest {
    pub batch_id: String,
    pub local_id: Option<String>,
}

/// A `RunRequest` with its texts as sequences of characters.
pub struct RunRequestView {
    pub batch_id: Seq<char>,
    pub local_id: Option<Seq<char>>,
}

/// The view of a text that may be absent.
pub open spec fn optional_text(text: Option<String>) -> Option<Seq<char>> {
    match text {
        Some(s) => Some(s@),
        None => None,
    }
}

impl View for RunRequest {
    type V = RunRequestView;

    open spec fn view(&self) -> RunRequestView {
        RunRequestView { batch_id: self.batch_id@, local_id: optional_text(self.local_id) }
    }
}

/// Where a run stands.
#[derive(Clone, Debug, PartialEq, Eq)]
pub enum RunState {
    /// Nothing is known yet; the batch is being looked up.
    Idle { request: RunRequest },
    /// The batch is known; its records are being listed.
    BatchResolved { batch: Batch },
    /// The records are known; their number is being shown.
    RecordsEnumerated { batch: Batch, rows: Vec<RawRow> },
    /// The operator is being asked whether to go on.
    AwaitingConfirmation { batch: Batch, rows: Vec<RawRow> },
    /// The message for the record at index `published` is with the
    /// transport; those before it are published.
    Publishing { batch: Batch, rows: Vec<RawRow>, published: usize },
    /// The run is over, with `published` messages out.
    Completed { published: usize },
    /// The run failed, with `published` messages out before it did.
    Failed { error: RunError, published: usize },
}

/// A `RunState` over views.
pub enum RunStateView {
    Idle { request: RunRequestView },
    BatchResolved { batch: BatchView },
    RecordsEnumerated { batch: BatchView, rows: Seq<Seq<ColumnView>> },
    AwaitingConfirmation { batch: BatchView, rows: Seq<Seq<ColumnView>> },
    Publishing { batch: BatchView, rows: Seq<Seq<ColumnView>>, published: nat },
    Completed { published: nat },
    Failed { error: RunErrorView, published: nat },
}

impl View for RunState {
    type V = RunStateView;

    open spec fn view(&self) -> RunStateView {
        match self {
            RunState::Idle { request } => RunStateView::Idle { request: request@ },
            RunState::BatchResolved { batch } => RunStateView::BatchResolved { batch: batch@ },
            RunState::RecordsEnumerated { batch, rows } => RunStateView::RecordsEnumerated {
                batch: batch@,
                rows: row_views(rows@),
            },
            RunState::AwaitingConfirmation { batch, rows } => RunStateView::AwaitingConfirmation {
                batch: batch@,
                rows: row_views(rows@),
            },
            RunState::Publishing { batch, rows, published } => RunStateView::Publishing {
                batch: batch@,
                rows: row_views(rows@),
                published: *published as nat,
            },
            RunState::Completed { published } => RunStateView::Completed {
                published: *published as nat,
            },
            RunState::Failed { error, published } => RunStateView::Failed {
                error: error@,
                published: *published as nat,
            },
        }
    }
}

/// What the caller reports back to the run.
#[derive(Clone, Debug, PartialEq, Eq)]
pub enum RunEvent {
    /// The rows that the catalog holds for the batch identifier.
    BatchRows { rows: Vec<RawRow> },
    /// The rows of the records that were asked for, in the catalog's order.
    RecordRows { rows: Vec<RawRow> },
    /// The number of records was shown.
    Reported,
    /// The line that the operator typed.
    Answer { line: String },
    /// The transport took the message.
    Published,
    /// The transport did not take the message.
    Rejected,
}

/// A `RunEvent` over views.
pub enum RunEventView {
    BatchRows { rows: Seq<Seq<ColumnView>> },
    RecordRows { rows: Seq<Seq<ColumnView>> },
    Reported,
    Answer { line: Seq<char> },
    Published,
    Rejected,
}

impl View for RunEvent {
    type V = RunEventView;

    open spec fn view(&self) -> RunEventView {
        match self {
            RunEvent::BatchRows { rows } => RunEventView::BatchRows { rows: row_views(rows@) },
            RunEvent::RecordRows { rows } => RunEventView::RecordRows { rows: row_views(rows@) },
            RunEvent::Reported => RunEventView::Reported,
            RunEvent::Answer { line } => RunEventView::Answer { line: line@ },
            RunEvent::Published => RunEventView::Published,
            RunEvent::Rejected => RunEventView::Rejected,
        }
    }
}

/// What the run asks the caller to do.
#[derive(Clone, Debug, PartialEq, Eq)]
pub enum RunAction {
    /// Fetch the rows of the batches with this identifier.
    LookUpBatch { batch_id: String },
    /// Fetch the rows of the records of the batch with this row id; with a
    /// local identifier, only of the records that carry it.
    EnumerateRecords { batch_row_id: i32, local_id: Option<String> },
    /// Show how many records were found for the batch.
    ReportCount { batch_id: String, count: usize },
    /// Ask the operator whether to go on, and read one line.
    AskConfirmation,
    /// Hand this text to the transport, as the body of one message.
    Publish { payload: String },
    /// Nothing is left to do.
    Stop,
}

/// A `RunAction` over views.
pub enum RunActionView {
    LookUpBatch { batch_id: Seq<char> },
    EnumerateRecords { batch_row_id: i32, local_id: Option<Seq<char>> },
    ReportCount { batch_id: Seq<char>, count: nat },
    AskConfirmation,
    Publish { payload: Seq<char> },
    Stop,
}

impl View for RunAction {
    type V = RunActionView;

    open spec fn view(&self) -> RunActionView {
        match self {
            RunAction::LookUpBatch { batch_id } => RunActionView::LookUpBatch {
                batch_id: batch_id@,
            },
            RunAction::EnumerateRecords { batch_row_id, local_id } => {
                RunActionView::EnumerateRecords {
                    batch_row_id: *batch_row_id,
                    local_id: optional_text(*local_id),
                }
            },
            RunAction::ReportCount { batch_id, count } => RunActionView::ReportCount {
                batch_id: batch_id@,
                count: *count as nat,
            },
            RunAction::AskConfirmation => RunActionView::AskConfirmation,
            RunAction::Publish { payload } => RunActionView::Publish { payload: payload@ },
            RunAction::Stop => RunActionView::Stop,
        }
    }
}

/// The operator's line says yes: it holds the letter `y` and, around it,
/// nothing but white space.
pub open spec fn is_affirmative(line: Seq<char>) -> bool {
    exists|i: int|
        0 <= i < line.len() && line[i] == 'y' && forall|j: int|
            0 <= j < line.len() && j != i ==> is_white_space(#[trigger] line[j])
}

/// Whether the operator's line says yes.
pub fn confirms(line: &str) -> (yes: bool)
    ensures
        yes == is_affirmative(line@),
{
    let cs = chars_of(line);
    let n = cs.len();
    let mut i: usize = 0;
    while i < n && white_space(cs[i])
        invariant
            i <= n,
            n == cs@.len(),
            forall|k: int| 0 <= k < i ==> is_white_space(#[trigger] cs@[k]),
        decreases n - i,
    {
        i = i + 1;
    }
    if i == n {
        return false;
    }
    if cs[i] != 'y' {
        assert(!is_affirmative(cs@)) by {
            if is_affirmative(cs@) {
                let w = choose|w: int|
                    0 <= w < cs@.len() && cs@[w] == 'y' && forall|j: int|
                        0 <= j < cs@.len() && j != w ==> is_white_space(#[trigger] cs@[j]);
                assert(!is_white_space(cs@[i as int]));
            }
        }
        return false;
    }
    let mut j: usize = i + 1;
    while j < n && white_space(cs[j])
        invariant
            i < j <= n,
            n == cs@.len(),
            forall|k: int| i < k < j ==> is_white_space(#[trigger] cs@[k]),
        decreases n - j,
    {
        j = j + 1;
    }
    if j == n {
        assert(is_affirmative(cs@)) by {
            assert(0 <= i < cs@.len() && cs@[i as int] == 'y' && forall|k: int|
                0 <= k < cs@.len() && k != i ==> is_white_space(#[trigger] cs@[k]));
        }
        true
    } else {
        assert(!is_affirmative(cs@)) by {
            if is_affirmative(cs@) {
                let w = choose|w: int|
                    0 <= w < cs@.len() && cs@[w] == 'y' && forall|k: int|
                        0 <= k < cs@.len() && k != w ==> is_white_space(#[trigger] cs@[k]);
                assert(!is_white_space(cs@[i as int]));
                assert(!is_white_space(cs@[j as int]));
            }
        }
        false
    }
}

/// The body of the message for the record in `row`, emitted at `now`: the
/// row is mapped to a record, the record's message is assembled, and the
/// message is written as JSON. The first of these that fails is the error.
pub open spec fn payload_of(batch: BatchView, row: Seq<ColumnView>, now: Timestamp) -> Result<
    Seq<char>,
    RunErrorView,
> {
    match record_of_row(row) {
        Err(error) => Err(error),
        Ok(record) => match assembled(batch, record, now) {
            Some(message) => Ok(message_json(message)),
            None => Err(RunErrorView::DerivationFailure),
        },
    }
}

/// The body of the message for the record in `row` of `batch`, emitted at
/// `now`.
pub fn payload(batch: &Batch, row: &RawRow, now: Timestamp) -> (body: Result<String, RunError>)
    ensures
        match body {
            Ok(text) => payload_of(batch@, row@, now) == Ok::<Seq<char>, RunErrorView>(text@),
            Err(e) => payload_of(batch@, row@, now) == Err::<Seq<char>, RunErrorView>(e@),
        },
{
    let record = BatchRecord::from_postgres_row(row)?;
    let message = WatchfolderMsg::new(batch, &record, now)?;
    Ok(message.to_json())
}

/// What follows once the records before `index` are published: the message
/// for the record at `index` goes out, or the run fails on that record; past
/// the last record, the run is complete.
pub open spec fn publish_from(
    batch: BatchView,
    rows: Seq<Seq<ColumnView>>,
    index: int,
    now: Timestamp,
) -> (RunStateView, RunActionView) {
    if 0 <= index < rows.len() {
        match payload_of(batch, rows[index], now) {
            Ok(text) => (
                RunStateView::Publishing { batch, rows, published: index as nat },
                RunActionView::Publish { payload: text },
            ),
            Err(error) => (
                RunStateView::Failed { error, published: index as nat },
                RunActionView::Stop,
            ),
        }
    } else {
        (RunStateView::Completed { published: rows.len() }, RunActionView::Stop)
    }
}

/// How many messages are out when the run stands at `state`.
pub open spec fn published_at(state: RunStateView) -> nat {
    match state {
        RunStateView::Publishing { published, .. } => published,
        RunStateView::Completed { published } => published,
        RunStateView::Failed { published, .. } => published,
        _ => 0,
    }
}

/// The place of a state in the course of a run: a run goes through `Idle`,
/// `BatchResolved`, `RecordsEnumerated`, `AwaitingConfirmation` and
/// `Publishing`, in this order, and ends as `Completed` or `Failed`.
pub open spec fn phase(state: RunStateView) -> nat {
    match state {
        RunStateView::Idle { .. } => 0,
        RunStateView::BatchResolved { .. } => 1,
        RunStateView::RecordsEnumerated { .. } => 2,
        RunStateView::AwaitingConfirmation { .. } => 3,
        RunStateView::Publishing { .. } => 4,
        RunStateView::Completed { .. } => 5,
        RunStateView::Failed { .. } => 5,
    }
}

/// A state that a run can be in: while a message is with the transport,
/// there is a record that it belongs to.
pub open spec fn well_formed(state: RunStateView) -> bool {
    state matches RunStateView::Publishing { rows, published, .. } ==> published < rows.len()
}

/// How a run first stands, and what it first asks for: the batch.
pub open spec fn begun(request: RunRequestView) -> (RunStateView, RunActionView) {
    (RunStateView::Idle { request }, RunActionView::LookUpBatch { batch_id: request.batch_id })
}

/// The step of the run: where it stands after `event`, and what it asks for
/// next. `now` is the time that a message emitted in this step carries.
///
/// A run that is over stays as it is. An event that the state does not wait
/// for fails the run.
pub open spec fn stepped(state: RunStateView, event: RunEventView, now: Timestamp) -> (
    RunStateView,
    RunActionView,
) {
    match (state, event) {
        (RunStateView::Completed { .. }, _) => (state, RunActionView::Stop),
        (RunStateView::Failed { .. }, _) => (state, RunActionView::Stop),
        (RunStateView::Idle { request }, RunEventView::BatchRows { rows }) => match resolved(rows) {
            Ok(batch) => (
                RunStateView::BatchResolved { batch },
                RunActionView::EnumerateRecords {
                    batch_row_id: batch.row_id,
                    local_id: request.local_id,
                },
            ),
            Err(error) => (RunStateView::Failed { error, published: 0 }, RunActionView::Stop),
        },
        (RunStateView::BatchResolved { batch }, RunEventView::RecordRows { rows }) => (
            RunStateView::RecordsEnumerated { batch, rows },
            RunActionView::ReportCount { batch_id: batch.batch_id, count: rows.len() },
        ),
        (RunStateView::RecordsEnumerated { batch, rows }, RunEventView::Reported) => (
            RunStateView::AwaitingConfirmation { batch, rows },
            RunActionView::AskConfirmation,
        ),
        (RunStateView::AwaitingConfirmation { batch, rows }, RunEventView::Answer { line }) => {
            if is_affirmative(line) {
                publish_from(batch, rows, 0, now)
            } else {
                (RunStateView::Completed { published: 0 }, RunActionView::Stop)
            }
        },
        (RunStateView::Publishing { batch, rows, published }, RunEventView::Published) => {
            publish_from(batch, rows, published as int + 1, now)
        },
        (RunStateView::Publishing { published, .. }, RunEventView::Rejected) => (
            RunStateView::Failed { error: RunErrorView::TransportFailure, published },
            RunActionView::Stop,
        ),
        _ => (
            RunStateView::Failed {
                error: RunErrorView::UnexpectedEvent,
                published: published_at(state),
            },
            RunActionView::Stop,
        ),
    }
}

fn publish_next(batch: Batch, rows: Vec<RawRow>, index: usize, now: Timestamp) -> (next: (
    RunState,
    RunAction,
))
    ensures
        (next.0@, next.1@) == publish_from(batch@, row_views(rows@), index as int, now),
{
    if index < rows.len() {
        match payload(&batch, &rows[index], now) {
            Ok(text) => (
                RunState::Publishing { batch, rows, published: index },
                RunAction::Publish { payload: text },
            ),
            Err(error) => (RunState::Failed { error, published: index }, RunAction::Stop),
        }
    } else {
        (RunState::Completed { published: rows.len() }, RunAction::Stop)
    }
}

fn unexpected(published: usize) -> (next: (RunState, RunAction))
    ensures
        next.0@ == (RunStateView::Failed {
            error: RunErrorView::UnexpectedEvent,
            published: published as nat,
        }),
        next.1@ == RunActionView::Stop,
{
    (RunState::Failed { error: RunError::UnexpectedEvent, published }, RunAction::Stop)
}

impl RunState {
    /// A run for `request`, and what it first asks for.
    pub fn begin(request: RunRequest) -> (next: (RunState, RunAction))
        ensures
            (next.0@, next.1@) == begun(request@),
    {
        let batch_id = request.batch_id.clone();
        (RunState::Idle { request }, RunAction::LookUpBatch { batch_id })
    }

    /// Whether the run is over, for better or worse.
    pub fn is_over(&self) -> (over: bool)
        ensures
            over == (self@ is Completed || self@ is Failed),
    {
        match self {
            RunState::Completed { .. } => true,
            RunState::Failed { .. } => true,
            _ => false,
        }
    }

    /// The step of the run: takes `event`, and gives where the run stands
    /// then and what it asks for next. `now` is the time that a message
    /// emitted in this step carries.
    pub fn step(self, event: RunEvent, now: Timestamp) -> (next: (RunState, RunAction))
        ensures
            (next.0@, next.1@) == stepped(self@, event@, now),
    {
        match self {
            RunState::Completed { published } => (
                RunState::Completed { published },
                RunAction::Stop,
            ),
            RunState::Failed { error, published } => (
                RunState::Failed { error, published },
                RunAction::Stop,
            ),
            RunState::Idle { request } => match event {
                RunEvent::BatchRows { rows } => match resolve_batch(&rows) {
                    Ok(batch) => {
                        let batch_row_id = batch.row_id;
                        (
                            RunState::BatchResolved { batch },
                            RunAction::EnumerateRecords {
                                batch_row_id,
                                local_id: request.local_id,
                            },
                        )
                    },
                    Err(error) => (RunState::Failed { error, published: 0 }, RunAction::Stop),
                },
                _ => unexpected(0),
            },
            RunState::BatchResolved { batch } => match event {
                RunEvent::RecordRows { rows } => {
                    let batch_id = batch.batch_id.clone();
                    let count = rows.len();
                    (
                        RunState::RecordsEnumerated { batch, rows },
                        RunAction::ReportCount { batch_id, count },
                    )
                },
                _ => unexpected(0),
            },
            RunState::RecordsEnumerated { batch, rows } => match event {
                RunEvent::Reported => (
                    RunState::AwaitingConfirmation { batch, rows },
                    RunAction::AskConfirmation,
                ),
                _ => unexpected(0),
            },
            RunState::AwaitingConfirmation { batch, rows } => match event {
                RunEvent::Answer { line } => {
                    if confirms(line.as_str()) {
                        publish_next(batch, rows, 0, now)
                    } else {
                        (RunState::Completed { published: 0 }, RunAction::Stop)
                    }
                },
                _ => unexpected(0),
            },
            RunState::Publishing { batch, rows, published } => match event {
                RunEvent::Published => {
                    if published < rows.len() {
                        publish_next(batch, rows, published + 1, now)
                    } else {
                        (RunState::Completed { published: rows.len() }, RunAction::Stop)
                    }
                },
                RunEvent::Rejected => (
                    RunState::Failed { error: RunError::TransportFailure, published },
                    RunAction::Stop,
                ),
                _ => unexpected(published),
            },
        }
    }
}

/// The batch is resolved by exactly one row. With no row the run fails with
/// `NotFound`, with several with `Ambiguous`, and in neither case is
/// anything asked of the catalog again. With one row that maps to a batch,
/// the run goes on to list the records of that batch.
pub proof fn lemma_batch_resolution(
    request: RunRequestView,
    rows: Seq<Seq<ColumnView>>,
    now: Timestamp,
)
    ensures
        rows.len() == 0 ==> stepped(
            RunStateView::Idle { request },
            RunEventView::BatchRows { rows },
            now,
        ) == (
            RunStateView::Failed { error: RunErrorView::NotFound, published: 0 },
            RunActionView::Stop,
        ),
        rows.len() > 1 ==> stepped(
            RunStateView::Idle { request },
            RunEventView::BatchRows { rows },
            now,
        ) == (
            RunStateView::Failed { error: RunErrorView::Ambiguous, published: 0 },
            RunActionView::Stop,
        ),
        rows.len() == 1 ==> (batch_of_row(rows[0]) matches Ok(batch) ==> stepped(
            RunStateView::Idle { request },
            RunEventView::BatchRows { rows },
            now,
        ) == (
            RunStateView::BatchResolved { batch },
            RunActionView::EnumerateRecords {
                batch_row_id: batch.row_id,
                local_id: request.local_id,
            },
        )),
{
}

/// A batch without records makes a run without messages and without error:
/// whatever the operator answers, the run is complete after the answer,
/// nothing was published, and no step on the way asked to publish.
pub proof fn lemma_empty_run(batch: BatchView, line: Seq<char>, now: Timestamp)
    ensures
        ({
            let listed = stepped(
                RunStateView::BatchResolved { batch },
                RunEventView::RecordRows { rows: Seq::empty() },
                now,
            );
            let shown = stepped(listed.0, RunEventView::Reported, now);
            let answered = stepped(shown.0, RunEventView::Answer { line }, now);
            &&& listed.1 == RunActionView::ReportCount { batch_id: batch.batch_id, count: 0 }
            &&& shown.1 == RunActionView::AskConfirmation
            &&& answered.0 == RunStateView::Completed { published: 0 }
            &&& answered.1 == RunActionView::Stop
        }),
{
}

/// Unless the operator's line says yes, nothing is published and the run
/// ends well.
pub proof fn lemma_declined_run(
    batch: BatchView,
    rows: Seq<Seq<ColumnView>>,
    line: Seq<char>,
    now: Timestamp,
)
    requires
        !is_affirmative(line),
    ensures
        stepped(
            RunStateView::AwaitingConfirmation { batch, rows },
            RunEventView::Answer { line },
            now,
        ) == (RunStateView::Completed { published: 0 }, RunActionView::Stop),
{
}

/// A message goes out only after the operator said yes: a step asks to
/// publish only on that answer, or when the message before was taken. What
/// it asks to publish then is the message of the next record in the
/// catalog's order.
pub proof fn lemma_publish_needs_consent(state: RunStateView, event: RunEventView, now: Timestamp)
    requires
        stepped(state, event, now).1 is Publish,
    ensures
        ({
            let next = stepped(state, event, now);
            ||| (state matches RunStateView::AwaitingConfirmation { batch, rows } && event
                matches RunEventView::Answer { line } && is_affirmative(line) && next
                == publish_from(batch, rows, 0, now) && published_at(next.0) == 0)
            ||| (state matches RunStateView::Publishing { batch, rows, published } && event
                is Published && next == publish_from(batch, rows, published as int + 1, now)
                && published_at(next.0) == published + 1)
        }),
{
}

/// The step that publishes the record at `index` hands out the body of that
/// record's message and leaves the rows as they were.
pub proof fn lemma_publish_in_order(
    batch: BatchView,
    rows: Seq<Seq<ColumnView>>,
    index: int,
    now: Timestamp,
)
    requires
        publish_from(batch, rows, index, now).1 is Publish,
    ensures
        0 <= index < rows.len(),
        publish_from(batch, rows, index, now).0 == (RunStateView::Publishing {
            batch,
            rows,
            published: index as nat,
        }),
        payload_of(batch, rows[index], now) == Ok::<Seq<char>, RunErrorView>(
            publish_from(batch, rows, index, now).1->payload,
        ),
{
}

/// A run that is over stays over: it takes every event, stays as it is and
/// asks for nothing.
pub proof fn lemma_over_stays_over(state: RunStateView, event: RunEventView, now: Timestamp)
    requires
        state is Completed || state is Failed,
    ensures
        stepped(state, event, now) == (state, RunActionView::Stop),
{
}

/// A run begins in a state that it can be in, and every step leads from
/// such a state to such a state.
pub proof fn lemma_step_keeps_well_formed(
    request: RunRequestView,
    state: RunStateView,
    event: RunEventView,
    now: Timestamp,
)
    requires
        well_formed(state),
    ensures
        well_formed(begun(request).0),
        well_formed(stepped(state, event, now).0),
{
}

/// What was published stays published: no step lowers the number of
/// messages that are out, whether it fails the run or not.
pub proof fn lemma_published_never_drops(state: RunStateView, event: RunEventView, now: Timestamp)
    requires
        well_formed(state),
    ensures
        published_at(state) <= published_at(stepped(state, event, now).0),
{
}

/// The states follow one another as the course of a run says. A step goes
/// to the next state of the course; or it stays in `Publishing`, for the
/// next record; or it ends the run. A run ends as `Completed` only from
/// `AwaitingConfirmation` and from `Publishing`; it can fail anywhere. Only
/// a step that ends the run, or leaves it ended, asks to stop.
pub proof fn lemma_course_of_a_run(state: RunStateView, event: RunEventView, now: Timestamp)
    ensures
        ({
            let next = stepped(state, event, now);
            &&& phase(state) <= phase(next.0)
            &&& (next.0 is Failed || phase(next.0) <= phase(state) + 1 || (state
                is AwaitingConfirmation && next.0 is Completed))
            &&& next.0 is Completed ==> (state is AwaitingConfirmation || state is Publishing
                || state is Completed)
            &&& next.1 is Stop <==> (next.0 is Completed || next.0 is Failed)
            &&& (phase(next.0) == phase(state) && !(state is Publishing)) ==> next.0 == state
        }),
{
}

/// A run is complete with every record published, or with none: after the
/// last record was taken the count is the number of records, and a run that
/// the operator declined, or that had no records, counts no message.
pub proof fn lemma_completed_counts(state: RunStateView, event: RunEventView, now: Timestamp)
    requires
        well_formed(state),
        !(state is Completed),
        stepped(state, event, now).0 is Completed,
    ensures
        ({
            let count = published_at(stepped(state, event, now).0);
            match state {
                RunStateView::Publishing { rows, published, .. } => count == rows.len()
                    && published + 1 == rows.len(),
                RunStateView::AwaitingConfirmation { rows, .. } => count == 0 && (rows.len() == 0
                    || !is_affirmative(event->line)),
                _ => false,
            }
        }),
{
}

} // verus!
