//! The worker's side of a task run, as far as it can be decided from what
//! the worker printed: its output lines, and its exit status.

use vstd::prelude::*;
use crate::decimal::{signed_decimal, signed_decimal_string};
use crate::ipc::{
    decode, decoded, diagnostic_text, format_diagnostic, format_progress, progress_text,
    IpcMessage, IpcMessageView,
};
use crate::json::{
    json_model, json_parse, json_pretty, member, models, parse_value, value_as_array,
    value_as_str, value_get, value_to_pretty, JsonModel,
};
use crate::paths::{get_worker_entry, worker_entry};
use crate::text::{is_blank, push_str_copy, str_is_blank};

verus! {

/// The digest of one worker run.
#[derive(Debug, Clone)]
pub struct TaskOutput {
    pub headers: Vec<String>,
    pub rows: Vec<Vec<String>>,
    pub raw_json: Option<String>,
    pub message: Option<String>,
    pub file_path: Option<String>,
}

/// A `TaskOutput` as plain sequences.
pub struct TaskOutputView {
    pub headers: Seq<Seq<char>>,
    pub rows: Seq<Seq<Seq<char>>>,
    pub raw_json: Option<Seq<char>>,
    pub message: Option<Seq<char>>,
    pub file_path: Option<Seq<char>>,
}

impl View for TaskOutput {
    type V = TaskOutputView;

    open spec fn view(&self) -> TaskOutputView {
        TaskOutputView {
            headers: self.headers.deep_view(),
            rows: self.rows.deep_view(),
            raw_json: self.raw_json.deep_view(),
            message: self.message.deep_view(),
            file_path: self.file_path.deep_view(),
        }
    }
}

/// The output of a run that reported nothing.
pub open spec fn empty_output() -> TaskOutputView {
    TaskOutputView {
        headers: Seq::empty(),
        rows: Seq::empty(),
        raw_json: None,
        message: None,
        file_path: None,
    }
}

/// The text of a table cell: the string itself, and the empty string for
/// anything that is not a string.
pub open spec fn cell(m: JsonModel) -> Seq<char> {
    match m {
        JsonModel::String(t) => t,
        _ => Seq::empty(),
    }
}

/// The cells of one row.
pub open spec fn cells(items: Seq<JsonModel>) -> Seq<Seq<char>> {
    Seq::new(items.len(), |i: int| cell(items[i]))
}

/// The rows of a table: one for each item that is an array, in order; items
/// of any other kind are passed over.
pub open spec fn table_rows(items: Seq<JsonModel>) -> Seq<Seq<Seq<char>>>
    decreases items.len(),
{
    if items.len() == 0 {
        Seq::empty()
    } else {
        match items.last() {
            JsonModel::Array(cols) => table_rows(items.drop_last()).push(cells(cols)),
            _ => table_rows(items.drop_last()),
        }
    }
}

/// The text of member `key` where it is a string, else `fallback`.
pub open spec fn text_member_or(m: JsonModel, key: Seq<char>, fallback: Option<Seq<char>>) -> Option<
    Seq<char>,
> {
    match member(m, key) {
        Some(JsonModel::String(t)) => Some(t),
        _ => fallback,
    }
}

/// What a success payload makes of the output so far.
///
/// With a `table` member: `headers`, where it is an array, replaces the
/// headers; the rows of `rows`, where it is an array, are added; `message`
/// and `file_path` of the payload, where they are strings, are taken over.
/// Without one, the payload's indented text becomes the raw payload, and
/// the result is `None` where that text cannot be had.
pub open spec fn absorbed(out: TaskOutputView, data: JsonModel) -> Option<TaskOutputView> {
    match member(data, "table"@) {
        Some(table) => Some(
            TaskOutputView {
                headers: match member(table, "headers"@) {
                    Some(JsonModel::Array(items)) => cells(items),
                    _ => out.headers,
                },
                rows: match member(table, "rows"@) {
                    Some(JsonModel::Array(items)) => out.rows + table_rows(items),
                    _ => out.rows,
                },
                raw_json: out.raw_json,
                message: text_member_or(data, "message"@, out.message),
                file_path: text_member_or(data, "file_path"@, out.file_path),
            },
        ),
        None => match json_pretty(data) {
            Some(text) => Some(
                TaskOutputView {
                    headers: out.headers,
                    rows: out.rows,
                    raw_json: Some(text),
                    message: out.message,
                    file_path: out.file_path,
                },
            ),
            None => None,
        },
    }
}

/// Whether every row has one cell for each header.
pub open spec fn rectangular(out: TaskOutputView) -> bool {
    forall|i: int| 0 <= i < out.rows.len() ==> (#[trigger] out.rows[i]).len() == out.headers.len()
}

/// The cells of a row of values.
fn cells_of(items: &Vec<serde_json::Value>) -> (r: Vec<String>)
    ensures
        r.deep_view() == cells(models(items@)),
{
    let mut out: Vec<String> = Vec::new();
    let mut i: usize = 0;
    while i < items.len()
        invariant
            i <= items.len(),
            out@.len() == i,
            forall|k: int| 0 <= k < i ==> (#[trigger] out@[k])@ == cell(json_model(items@[k])),
        decreases items.len() - i,
    {
        let text = match value_as_str(&items[i]) {
            Some(s) => s.to_owned(),
            None => String::new(),
        };
        out.push(text);
        i += 1;
    }
    proof {
        assert(out.deep_view() =~= cells(models(items@)));
    }
    out
}

/// The text of member `key` of `data` where it is a string.
fn text_member(data: &serde_json::Value, key: &str) -> (r: Option<String>)
    ensures
        r.deep_view() == text_member_or(json_model(*data), key@, None),
{
    match value_get(data, key) {
        Some(found) => match value_as_str(found) {
            Some(s) => Some(s.to_owned()),
            None => None,
        },
        None => None,
    }
}

impl TaskOutput {
    /// Decides `rectangular`.
    pub fn is_rectangular(&self) -> (r: bool)
        ensures
            r == rectangular(self@),
    {
        let mut i: usize = 0;
        while i < self.rows.len()
            invariant
                i <= self.rows.len(),
                forall|k: int|
                    0 <= k < i ==> (#[trigger] self@.rows[k]).len() == self@.headers.len(),
            decreases self.rows.len() - i,
        {
            proof {
                assert(self@.rows[i as int] == self.rows@[i as int].deep_view());
            }
            if self.rows[i].len() != self.headers.len() {
                return false;
            }
            i += 1;
        }
        true
    }

    /// The output of a run that has reported nothing yet.
    pub fn new() -> (r: TaskOutput)
        ensures
            r@ == empty_output(),
    {
        let r = TaskOutput {
            headers: Vec::new(),
            rows: Vec::new(),
            raw_json: None,
            message: None,
            file_path: None,
        };
        proof {
            assert(r.headers.deep_view() =~= Seq::empty());
            assert(r.rows.deep_view() =~= Seq::empty());
        }
        r
    }

    /// Adds the rows of a `rows` array.
    fn absorb_rows(&mut self, items: &Vec<serde_json::Value>)
        ensures
            final(self)@.rows == old(self)@.rows + table_rows(models(items@)),
            final(self)@.headers == old(self)@.headers,
            final(self)@.raw_json == old(self)@.raw_json,
            final(self)@.message == old(self)@.message,
            final(self)@.file_path == old(self)@.file_path,
    {
        let mut i: usize = 0;
        proof {
            assert(models(items@).take(0) =~= Seq::empty());
            assert(self@.rows + table_rows(Seq::empty()) =~= self@.rows);
        }
        while i < items.len()
            invariant
                i <= items.len(),
                self@.rows == old(self)@.rows + table_rows(models(items@).take(i as int)),
                self@.headers == old(self)@.headers,
                self@.raw_json == old(self)@.raw_json,
                self@.message == old(self)@.message,
                self@.file_path == old(self)@.file_path,
            decreases items.len() - i,
        {
            let ghost done = models(items@).take(i as int);
            let ghost next = models(items@).take(i + 1);
            proof {
                assert(next.drop_last() =~= done);
                assert(next.last() == json_model(items@[i as int]));
            }
            match value_as_array(&items[i]) {
                Some(cols) => {
                    let row = cells_of(cols);
                    let ghost before = self.rows.deep_view();
                    self.rows.push(row);
                    proof {
                        assert(self.rows.deep_view() =~= before.push(cells(models(cols@))));
                    }
                },
                None => {},
            }
            i += 1;
        }
        proof {
            assert(models(items@).take(items@.len() as int) =~= models(items@));
        }
    }

    /// Takes a success payload into the output, as `absorbed` says. Returns
    /// whether it could; where it could not, the output is as before.
    pub fn absorb(&mut self, data: &serde_json::Value) -> (ok: bool)
        ensures
            match absorbed(old(self)@, json_model(*data)) {
                Some(v) => ok && final(self)@ == v,
                None => !ok && final(self)@ == old(self)@,
            },
    {
        match value_get(data, "table") {
            Some(table) => {
                match value_get(table, "headers") {
                    Some(h) => match value_as_array(h) {
                        Some(items) => {
                            self.headers = cells_of(items);
                        },
                        None => {},
                    },
                    None => {},
                }
                match value_get(table, "rows") {
                    Some(r) => match value_as_array(r) {
                        Some(items) => {
                            self.absorb_rows(items);
                        },
                        None => {},
                    },
                    None => {},
                }
                match text_member(data, "message") {
                    Some(t) => {
                        self.message = Some(t);
                    },
                    None => {},
                }
                match text_member(data, "file_path") {
                    Some(t) => {
                        self.file_path = Some(t);
                    },
                    None => {},
                }
                true
            },
            None => match value_to_pretty(data) {
                Some(text) => {
                    self.raw_json = Some(text);
                    true
                },
                None => false,
            },
        }
    }
}

/// Why a run failed.
#[derive(Debug)]
pub enum RunnerError {
    /// The worker could not be started.
    Spawn { reason: String },
    /// The access token could not be handed to the worker.
    SecretHandoff { reason: String },
    /// The worker's output could not be read, or its exit not awaited.
    Output { reason: String },
    /// A success payload could not be kept as text.
    Payload,
    /// The worker reported an error of its own.
    Reported { message: String },
    /// The worker ended with a status other than zero, or without one.
    Exit { code: Option<i32> },
}

/// A `RunnerError` as plain values.
pub enum RunnerErrorView {
    Spawn { reason: Seq<char> },
    SecretHandoff { reason: Seq<char> },
    Output { reason: Seq<char> },
    Payload,
    Reported { message: Seq<char> },
    Exit { code: Option<i32> },
}

impl View for RunnerError {
    type V = RunnerErrorView;

    open spec fn view(&self) -> RunnerErrorView {
        match *self {
            RunnerError::Spawn { reason } => RunnerErrorView::Spawn { reason: reason@ },
            RunnerError::SecretHandoff { reason } => RunnerErrorView::SecretHandoff {
                reason: reason@,
            },
            RunnerError::Output { reason } => RunnerErrorView::Output { reason: reason@ },
            RunnerError::Payload => RunnerErrorView::Payload,
            RunnerError::Reported { message } => RunnerErrorView::Reported { message: message@ },
            RunnerError::Exit { code } => RunnerErrorView::Exit { code },
        }
    }
}

/// The text of an exit status, as `Some(..)` around the code or `None`.
pub open spec fn exit_code_text(code: Option<i32>) -> Seq<char> {
    match code {
        Some(c) => "Some("@ + signed_decimal(c as int) + ")"@,
        None => "None"@,
    }
}

/// What a user is told of an error. A worker's own message follows its
/// prefix unchanged.
pub open spec fn runner_error_text(e: RunnerErrorView) -> Seq<char> {
    match e {
        RunnerErrorView::Spawn { reason } => "Failed to start Bun process: "@ + reason,
        RunnerErrorView::SecretHandoff { reason } => "Failed to write token to worker stdin: "@
            + reason,
        RunnerErrorView::Output { reason } => "Failed to read worker output: "@ + reason,
        RunnerErrorView::Payload => "Failed to encode worker result"@,
        RunnerErrorView::Reported { message } => "Worker Error: "@ + message,
        RunnerErrorView::Exit { code } => "Worker failed with exit code: "@ + exit_code_text(code),
    }
}

impl RunnerError {
    /// Writes `runner_error_text`.
    pub fn describe(&self) -> (r: String)
        ensures
            r@ == runner_error_text(self@),
    {
        match self {
            RunnerError::Spawn { reason } => {
                let mut out = String::from_str("Failed to start Bun process: ");
                out.append(reason.as_str());
                out
            },
            RunnerError::SecretHandoff { reason } => {
                let mut out = String::from_str("Failed to write token to worker stdin: ");
                out.append(reason.as_str());
                out
            },
            RunnerError::Output { reason } => {
                let mut out = String::from_str("Failed to read worker output: ");
                out.append(reason.as_str());
                out
            },
            RunnerError::Payload => String::from_str("Failed to encode worker result"),
            RunnerError::Reported { message } => {
                let mut out = String::from_str("Worker Error: ");
                out.append(message.as_str());
                out
            },
            RunnerError::Exit { code } => {
                let mut out = String::from_str("Worker failed with exit code: ");
                match code {
                    Some(c) => {
                        out.append("Some(");
                        out.append(signed_decimal_string(*c as i64).as_str());
                        out.append(")");
                        proof {
                            assert(out@ =~= runner_error_text(self@));
                        }
                    },
                    None => {
                        out.append("None");
                    },
                }
                out
            },
        }
    }
}

/// How far a run has come.
#[derive(Debug, Clone, Copy, PartialEq, Eq, Structural)]
pub enum RunPhase {
    /// The worker is being started.
    Spawning,
    /// The worker runs; the access token is being written to its input.
    HandingOff,
    /// The worker's output is being read, line by line.
    Streaming,
    /// The output has ended; the worker's exit is awaited.
    Exiting,
    /// The worker ended with status zero.
    Completed,
    /// The run failed.
    Failed,
}

/// How to start the worker: `program`, then `runtime_args`, the script's
/// path (by its components), and `task_args`.
#[derive(Debug)]
pub struct WorkerCommand {
    pub program: String,
    pub runtime_args: Vec<String>,
    pub script: Vec<String>,
    pub task_args: Vec<String>,
}

/// A `WorkerCommand` as plain values.
pub struct WorkerCommandView {
    pub program: Seq<char>,
    pub runtime_args: Seq<Seq<char>>,
    pub script: Seq<Seq<char>>,
    pub task_args: Seq<Seq<char>>,
}

impl View for WorkerCommand {
    type V = WorkerCommandView;

    open spec fn view(&self) -> WorkerCommandView {
        WorkerCommandView {
            program: self.program@,
            runtime_args: self.runtime_args.deep_view(),
            script: self.script.deep_view(),
            task_args: self.task_args.deep_view(),
        }
    }
}

/// The command that runs task `task_name` with `args`, for a tool started
/// in `cwd`. The access token is no part of it.
pub open spec fn worker_command(task_name: Seq<char>, args: Seq<Seq<char>>, cwd: Seq<Seq<char>>)
    -> WorkerCommandView {
    WorkerCommandView {
        program: "bun"@,
        runtime_args: seq!["run"@],
        script: worker_entry(cwd),
        task_args: seq![task_name] + args,
    }
}

/// What the caller reports from outside.
#[derive(Debug)]
pub enum RunEvent {
    /// The worker was started.
    Spawned,
    /// The worker could not be started.
    SpawnFailed { reason: String },
    /// The token was written and the worker's input closed.
    SecretWritten,
    /// The token could not be written.
    SecretFailed { reason: String },
    /// The worker printed a line.
    Line { text: String },
    /// Reading the worker's output failed.
    ReadFailed { reason: String },
    /// The worker's output has ended.
    StreamClosed,
    /// The worker ended, with this exit code if it has one.
    Exited { code: Option<i32> },
    /// Waiting for the worker's end failed.
    WaitFailed { reason: String },
}

/// A `RunEvent` as plain values.
pub enum RunEventView {
    Spawned,
    SpawnFailed { reason: Seq<char> },
    SecretWritten,
    SecretFailed { reason: Seq<char> },
    Line { text: Seq<char> },
    ReadFailed { reason: Seq<char> },
    StreamClosed,
    Exited { code: Option<i32> },
    WaitFailed { reason: Seq<char> },
}

impl View for RunEvent {
    type V = RunEventView;

    open spec fn view(&self) -> RunEventView {
        match *self {
            RunEvent::Spawned => RunEventView::Spawned,
            RunEvent::SpawnFailed { reason } => RunEventView::SpawnFailed { reason: reason@ },
            RunEvent::SecretWritten => RunEventView::SecretWritten,
            RunEvent::SecretFailed { reason } => RunEventView::SecretFailed { reason: reason@ },
            RunEvent::Line { text } => RunEventView::Line { text: text@ },
            RunEvent::ReadFailed { reason } => RunEventView::ReadFailed { reason: reason@ },
            RunEvent::StreamClosed => RunEventView::StreamClosed,
            RunEvent::Exited { code } => RunEventView::Exited { code },
            RunEvent::WaitFailed { reason } => RunEventView::WaitFailed { reason: reason@ },
        }
    }
}

/// What the caller is to do next.
#[derive(Debug)]
pub enum RunAction {
    /// Report `notice`, then start the worker with piped input and output.
    Spawn { command: WorkerCommand, notice: String },
    /// Write `line` to the worker's input, once, and close that input.
    WriteSecret { line: String },
    /// Read the next line of the worker's output.
    ReadLine,
    /// Report `text`, then read the next line.
    Report { text: String },
    /// Wait for the worker to end.
    AwaitExit,
    /// The run is over; `WorkerRun::outcome` has its result.
    Done,
    /// The event does not belong to this point of the run; nothing changed.
    Ignored,
}

/// A `RunAction` as plain values.
pub enum RunActionView {
    Spawn { command: WorkerCommandView, notice: Seq<char> },
    WriteSecret { line: Seq<char> },
    ReadLine,
    Report { text: Seq<char> },
    AwaitExit,
    Done,
    Ignored,
}

impl View for RunAction {
    type V = RunActionView;

    open spec fn view(&self) -> RunActionView {
        match *self {
            RunAction::Spawn { command, notice } => RunActionView::Spawn {
                command: command@,
                notice: notice@,
            },
            RunAction::WriteSecret { line } => RunActionView::WriteSecret { line: line@ },
            RunAction::ReadLine => RunActionView::ReadLine,
            RunAction::Report { text } => RunActionView::Report { text: text@ },
            RunAction::AwaitExit => RunActionView::AwaitExit,
            RunAction::Done => RunActionView::Done,
            RunAction::Ignored => RunActionView::Ignored,
        }
    }
}

/// One run of a worker, as a state machine: the caller does the outside
/// work that an action names and reports what came of it as an event.
pub struct WorkerRun {
    phase: RunPhase,
    token: String,
    output: TaskOutput,
    failure: Option<RunnerError>,
}

/// A `WorkerRun` as plain values.
pub struct WorkerRunView {
    pub phase: RunPhase,
    pub token: Seq<char>,
    pub output: TaskOutputView,
    pub failure: Option<RunnerErrorView>,
}

impl View for WorkerRun {
    type V = WorkerRunView;

    closed spec fn view(&self) -> WorkerRunView {
        WorkerRunView {
            phase: self.phase,
            token: self.token@,
            output: self.output@,
            failure: match self.failure {
                Some(e) => Some(e@),
                None => None,
            },
        }
    }
}

/// A run holds the token only until it is handed off, and an error exactly
/// when it has failed.
pub open spec fn run_valid(s: WorkerRunView) -> bool {
    &&& s.failure is Some <==> s.phase == RunPhase::Failed
    &&& s.phase != RunPhase::Spawning ==> s.token.len() == 0
}

/// Whether the run is over.
pub open spec fn run_over(s: WorkerRunView) -> bool {
    s.phase == RunPhase::Completed || s.phase == RunPhase::Failed
}

/// The state of a run that failed with `error`.
pub open spec fn failed_with(s: WorkerRunView, error: RunnerErrorView) -> WorkerRunView {
    WorkerRunView {
        phase: RunPhase::Failed,
        token: Seq::empty(),
        output: s.output,
        failure: Some(error),
    }
}

/// The state of a run that moved on to `phase`.
pub open spec fn moved_to(s: WorkerRunView, phase: RunPhase) -> WorkerRunView {
    WorkerRunView { phase, token: Seq::empty(), output: s.output, failure: s.failure }
}

/// What one line of output makes of a run that is reading.
///
/// A blank line is passed over. A line that is no JSON, or no message, is
/// reported as it stands and changes nothing. A progress message is
/// reported. A success message is taken into the output. An error message
/// ends the run at once with the worker's own words.
pub open spec fn line_step(s: WorkerRunView, text: Seq<char>) -> (WorkerRunView, RunActionView) {
    if is_blank(text) {
        (s, RunActionView::ReadLine)
    } else {
        match json_parse(text) {
            None => (s, RunActionView::Report { text: diagnostic_text(text) }),
            Some(doc) => match decoded(doc) {
                None => (s, RunActionView::Report { text: diagnostic_text(text) }),
                Some(IpcMessageView::Progress { message, percent }) => (
                    s,
                    RunActionView::Report { text: progress_text(message, percent) },
                ),
                Some(IpcMessageView::Success { data }) => match absorbed(s.output, data) {
                    Some(output) => (
                        WorkerRunView {
                            phase: s.phase,
                            token: s.token,
                            output,
                            failure: s.failure,
                        },
                        RunActionView::ReadLine,
                    ),
                    None => (failed_with(s, RunnerErrorView::Payload), RunActionView::Done),
                },
                Some(IpcMessageView::Error { message }) => (
                    failed_with(s, RunnerErrorView::Reported { message }),
                    RunActionView::Done,
                ),
            },
        }
    }
}

/// What an event makes of a run, and what the caller is to do next.
///
/// The token is written before any output is read. The exit status is
/// judged after the output has ended, whatever the output said: only status
/// zero completes the run. An event that does not belong to the run's phase,
/// and any event once the run is over, changes nothing.
pub open spec fn run_step(s: WorkerRunView, e: RunEventView) -> (WorkerRunView, RunActionView) {
    match (s.phase, e) {
        (RunPhase::Spawning, RunEventView::Spawned) => (
            moved_to(s, RunPhase::HandingOff),
            RunActionView::WriteSecret { line: s.token.push('\n') },
        ),
        (RunPhase::Spawning, RunEventView::SpawnFailed { reason }) => (
            failed_with(s, RunnerErrorView::Spawn { reason }),
            RunActionView::Done,
        ),
        (RunPhase::HandingOff, RunEventView::SecretWritten) => (
            moved_to(s, RunPhase::Streaming),
            RunActionView::ReadLine,
        ),
        (RunPhase::HandingOff, RunEventView::SecretFailed { reason }) => (
            failed_with(s, RunnerErrorView::SecretHandoff { reason }),
            RunActionView::Done,
        ),
        (RunPhase::Streaming, RunEventView::Line { text }) => line_step(s, text),
        (RunPhase::Streaming, RunEventView::ReadFailed { reason }) => (
            failed_with(s, RunnerErrorView::Output { reason }),
            RunActionView::Done,
        ),
        (RunPhase::Streaming, RunEventView::StreamClosed) => (
            moved_to(s, RunPhase::Exiting),
            RunActionView::AwaitExit,
        ),
        (RunPhase::Exiting, RunEventView::Exited { code }) => if code == Some(0i32) {
            (moved_to(s, RunPhase::Completed), RunActionView::Done)
        } else {
            (failed_with(s, RunnerErrorView::Exit { code }), RunActionView::Done)
        },
        (RunPhase::Exiting, RunEventView::WaitFailed { reason }) => (
            failed_with(s, RunnerErrorView::Output { reason }),
            RunActionView::Done,
        ),
        _ => (s, RunActionView::Ignored),
    }
}

/// The result of a run: `None` while it is not over.
pub open spec fn run_outcome(s: WorkerRunView) -> Option<Result<TaskOutputView, RunnerErrorView>> {
    match s.phase {
        RunPhase::Completed => Some(Ok(s.output)),
        RunPhase::Failed => match s.failure {
            Some(e) => Some(Err(e)),
            None => None,
        },
        _ => None,
    }
}

/// The view of a result.
pub open spec fn outcome_view(r: Option<Result<TaskOutput, RunnerError>>) -> Option<
    Result<TaskOutputView, RunnerErrorView>,
> {
    match r {
        Some(Ok(out)) => Some(Ok(out@)),
        Some(Err(e)) => Some(Err(e@)),
        None => None,
    }
}

/// The notice that goes out before the worker is started.
pub open spec fn spawn_notice(task_name: Seq<char>) -> Seq<char> {
    "\u{1f680} Spawning Worker for task: "@ + task_name
}

/// Begins a run of task `task_name` with `args`, for a tool started in
/// directory `cwd`. The token goes into the run, not into the command.
pub fn run_task(task_name: &str, args: &Vec<String>, token: &str, cwd: &Vec<String>) -> (r: (
    WorkerRun,
    RunAction,
))
    ensures
        r.0@ == (WorkerRunView {
            phase: RunPhase::Spawning,
            token: token@,
            output: empty_output(),
            failure: None,
        }),
        run_valid(r.0@),
        r.1@ == (RunActionView::Spawn {
            command: worker_command(task_name@, args.deep_view(), cwd.deep_view()),
            notice: spawn_notice(task_name@),
        }),
{
    let mut runtime_args: Vec<String> = Vec::new();
    proof {
        assert(runtime_args.deep_view() =~= Seq::empty());
    }
    push_str_copy(&mut runtime_args, "run");
    let mut task_args: Vec<String> = Vec::new();
    proof {
        assert(task_args.deep_view() =~= Seq::empty());
    }
    push_str_copy(&mut task_args, task_name);
    let mut i: usize = 0;
    while i < args.len()
        invariant
            i <= args.len(),
            task_args.deep_view() == seq![task_name@] + args.deep_view().take(i as int),
        decreases args.len() - i,
    {
        let ghost before = task_args.deep_view();
        push_str_copy(&mut task_args, args[i].as_str());
        proof {
            assert(args.deep_view().take(i + 1) =~= args.deep_view().take(i as int).push(
                args@[i as int]@,
            ));
            assert(task_args.deep_view() =~= seq![task_name@] + args.deep_view().take(i + 1));
        }
        i += 1;
    }
    proof {
        assert(args.deep_view().take(args.len() as int) =~= args.deep_view());
        assert(runtime_args.deep_view() =~= seq!["run"@]);
    }
    let command = WorkerCommand {
        program: String::from_str("bun"),
        runtime_args,
        script: get_worker_entry(cwd),
        task_args,
    };
    let mut notice = String::from_str("\u{1f680} Spawning Worker for task: ");
    notice.append(task_name);
    let run = WorkerRun {
        phase: RunPhase::Spawning,
        token: token.to_owned(),
        output: TaskOutput::new(),
        failure: None,
    };
    (run, RunAction::Spawn { command, notice })
}

impl WorkerRun {
    /// How far the run has come.
    pub fn phase(&self) -> (r: RunPhase)
        ensures
            r == self@.phase,
    {
        self.phase
    }

    /// Ends the run with `error`.
    fn fail(&mut self, error: RunnerError)
        ensures
            final(self)@ == failed_with(old(self)@, error@),
    {
        self.phase = RunPhase::Failed;
        self.token = String::new();
        self.failure = Some(error);
    }

    /// Moves the run on to `phase`.
    fn advance(&mut self, phase: RunPhase)
        ensures
            final(self)@ == moved_to(old(self)@, phase),
    {
        self.phase = phase;
        self.token = String::new();
    }

    /// Takes one line of the worker's output, as `line_step` says.
    fn on_line(&mut self, text: &str) -> (action: RunAction)
        ensures
            (final(self)@, action@) == line_step(old(self)@, text@),
    {
        if str_is_blank(text) {
            return RunAction::ReadLine;
        }
        let doc = match parse_value(text) {
            Some(doc) => doc,
            None => {
                return RunAction::Report { text: format_diagnostic(text) };
            },
        };
        match decode(&doc) {
            None => RunAction::Report { text: format_diagnostic(text) },
            Some(IpcMessage::Progress { message, percent }) => RunAction::Report {
                text: format_progress(message.as_str(), percent),
            },
            Some(IpcMessage::Success { data }) => {
                if self.output.absorb(data) {
                    RunAction::ReadLine
                } else {
                    self.fail(RunnerError::Payload);
                    RunAction::Done
                }
            },
            Some(IpcMessage::Error { message }) => {
                self.fail(RunnerError::Reported { message });
                RunAction::Done
            },
        }
    }

    /// Takes an event, as `run_step` says, and names what to do next.
    pub fn step(&mut self, event: RunEvent) -> (action: RunAction)
        ensures
            (final(self)@, action@) == run_step(old(self)@, event@),
            run_valid(old(self)@) ==> run_valid(final(self)@),
    {
        match self.phase {
            RunPhase::Spawning => match event {
                RunEvent::Spawned => {
                    let mut line = self.token.clone();
                    line.append("\n");
                    proof {
                        reveal_strlit("\n");
                        assert(line@ =~= self.token@.push('\n'));
                    }
                    self.advance(RunPhase::HandingOff);
                    RunAction::WriteSecret { line }
                },
                RunEvent::SpawnFailed { reason } => {
                    self.fail(RunnerError::Spawn { reason });
                    RunAction::Done
                },
                _ => RunAction::Ignored,
            },
            RunPhase::HandingOff => match event {
                RunEvent::SecretWritten => {
                    self.advance(RunPhase::Streaming);
                    RunAction::ReadLine
                },
                RunEvent::SecretFailed { reason } => {
                    self.fail(RunnerError::SecretHandoff { reason });
                    RunAction::Done
                },
                _ => RunAction::Ignored,
            },
            RunPhase::Streaming => match event {
                RunEvent::Line { text } => self.on_line(text.as_str()),
                RunEvent::ReadFailed { reason } => {
                    self.fail(RunnerError::Output { reason });
                    RunAction::Done
                },
                RunEvent::StreamClosed => {
                    self.advance(RunPhase::Exiting);
                    RunAction::AwaitExit
                },
                _ => RunAction::Ignored,
            },
            RunPhase::Exiting => match event {
                RunEvent::Exited { code } => {
                    let clean = match code {
                        Some(c) => c == 0,
                        None => false,
                    };
                    if clean {
                        self.advance(RunPhase::Completed);
                    } else {
                        self.fail(RunnerError::Exit { code });
                    }
                    RunAction::Done
                },
                RunEvent::WaitFailed { reason } => {
                    self.fail(RunnerError::Output { reason });
                    RunAction::Done
                },
                _ => RunAction::Ignored,
            },
            RunPhase::Completed => RunAction::Ignored,
            RunPhase::Failed => RunAction::Ignored,
        }
    }

    /// The result of the run, once it is over.
    pub fn outcome(self) -> (r: Option<Result<TaskOutput, RunnerError>>)
        ensures
            outcome_view(r) == run_outcome(self@),
    {
        match self.phase {
            RunPhase::Completed => Some(Ok(self.output)),
            RunPhase::Failed => match self.failure {
                Some(e) => Some(Err(e)),
                None => None,
            },
            _ => None,
        }
    }
}

/// The state after a run of output lines, and the texts reported on the way.
pub open spec fn after_lines(s: WorkerRunView, lines: Seq<Seq<char>>) -> (
    WorkerRunView,
    Seq<Seq<char>>,
)
    decreases lines.len(),
{
    if lines.len() == 0 {
        (s, Seq::empty())
    } else {
        let (before, reports) = after_lines(s, lines.drop_last());
        let (next, action) = run_step(before, RunEventView::Line { text: lines.last() });
        (
            next,
            match action {
                RunActionView::Report { text } => reports.push(text),
                _ => reports,
            },
        )
    }
}

impl WorkerRun {
    /// Takes a run of output lines, one `step` each, and returns the texts
    /// to report, in order.
    pub fn feed(&mut self, lines: &Vec<String>) -> (reports: Vec<String>)
        ensures
            (final(self)@, reports.deep_view()) == after_lines(old(self)@, lines.deep_view()),
            run_valid(old(self)@) ==> run_valid(final(self)@),
    {
        let mut reports: Vec<String> = Vec::new();
        let mut i: usize = 0;
        proof {
            assert(reports.deep_view() =~= Seq::empty());
            assert(lines.deep_view().take(0) =~= Seq::empty());
        }
        while i < lines.len()
            invariant
                i <= lines.len(),
                run_valid(old(self)@) ==> run_valid(self@),
                (self@, reports.deep_view()) == after_lines(
                    old(self)@,
                    lines.deep_view().take(i as int),
                ),
            decreases lines.len() - i,
        {
            let ghost done = lines.deep_view().take(i as int);
            let ghost next = lines.deep_view().take(i + 1);
            proof {
                assert(next.drop_last() =~= done);
                assert(next.last() == lines@[i as int]@);
            }
            let action = self.step(RunEvent::Line { text: lines[i].clone() });
            match action {
                RunAction::Report { text } => {
                    let ghost before = reports.deep_view();
                    reports.push(text);
                    proof {
                        assert(reports.deep_view() =~= before.push(text@));
                    }
                },
                _ => {},
            }
            i += 1;
        }
        proof {
            assert(lines.deep_view().take(lines.len() as int) =~= lines.deep_view());
        }
        reports
    }
}

/// Once a run is over, no event changes it.
pub proof fn lemma_over_is_final(s: WorkerRunView, e: RunEventView)
    requires
        run_over(s),
    ensures
        run_step(s, e) == (s, RunActionView::Ignored),
{
}

/// Once a run is over, no further output changes it or is reported.
pub proof fn lemma_over_ignores_lines(s: WorkerRunView, lines: Seq<Seq<char>>)
    requires
        run_over(s),
    ensures
        after_lines(s, lines) == (s, Seq::<Seq<char>>::empty()),
    decreases lines.len(),
{
    if lines.len() > 0 {
        lemma_over_ignores_lines(s, lines.drop_last());
    }
}

/// A line that is not JSON is reported as it stands and changes nothing:
/// the run goes on reading.
pub proof fn lemma_plain_text_is_forwarded(s: WorkerRunView, text: Seq<char>)
    requires
        s.phase == RunPhase::Streaming,
        !is_blank(text),
        json_parse(text) is None,
    ensures
        run_step(s, RunEventView::Line { text }) == (
            s,
            RunActionView::Report { text: diagnostic_text(text) },
        ),
{
}

/// An error message ends the run at once with the worker's own words,
/// whatever output follows it.
pub proof fn lemma_error_message_ends_run(
    s: WorkerRunView,
    text: Seq<char>,
    message: Seq<char>,
    rest: Seq<Seq<char>>,
)
    requires
        s.phase == RunPhase::Streaming,
        !is_blank(text),
        json_parse(text) matches Some(doc) && decoded(doc) == Some(
            IpcMessageView::Error { message },
        ),
    ensures
        run_step(s, RunEventView::Line { text }) == (
            failed_with(s, RunnerErrorView::Reported { message }),
            RunActionView::Done,
        ),
        after_lines(s, seq![text] + rest) == (
            failed_with(s, RunnerErrorView::Reported { message }),
            Seq::<Seq<char>>::empty(),
        ),
        run_outcome(after_lines(s, seq![text] + rest).0) == Some(
            Err::<TaskOutputView, RunnerErrorView>(RunnerErrorView::Reported { message }),
        ),
    decreases rest.len(),
{
    let failed = failed_with(s, RunnerErrorView::Reported { message });
    let all = seq![text] + rest;
    if rest.len() == 0 {
        assert(all.drop_last() =~= Seq::<Seq<char>>::empty());
        assert(all.last() == text);
        assert(after_lines(s, all.drop_last()) == (s, Seq::<Seq<char>>::empty()));
    } else {
        lemma_error_message_ends_run(s, text, message, rest.drop_last());
        assert(all.drop_last() =~= seq![text] + rest.drop_last());
        lemma_over_is_final(failed, RunEventView::Line { text: all.last() });
    }
}

/// A status other than zero fails the run, whatever its output was: a
/// success message before it does not count.
pub proof fn lemma_exit_status_decides(s: WorkerRunView, code: Option<i32>)
    requires
        s.phase == RunPhase::Exiting,
    ensures
        run_outcome(run_step(s, RunEventView::Exited { code }).0) == (if code == Some(0i32) {
            Some(Ok::<TaskOutputView, RunnerErrorView>(s.output))
        } else {
            Some(Err::<TaskOutputView, RunnerErrorView>(RunnerErrorView::Exit { code }))
        }),
{
}

/// A first payload whose table has an array of headers, and rows that all
/// have one item for each header, gives a rectangular output.
pub proof fn lemma_rectangular_payload(data: JsonModel, headers: Seq<JsonModel>, rows: Seq<JsonModel>)
    requires
        member(data, "table"@) matches Some(table) && member(table, "headers"@) == Some(
            JsonModel::Array(headers),
        ) && member(table, "rows"@) == Some(JsonModel::Array(rows)),
        forall|i: int|
            0 <= i < rows.len() ==> (#[trigger] rows[i] matches JsonModel::Array(cols)
                ==> cols.len() == headers.len()),
    ensures
        absorbed(empty_output(), data) matches Some(out) && rectangular(out),
{
    lemma_rectangular_table(headers, rows);
    let out = absorbed(empty_output(), data)->0;
    assert(out.rows =~= table_rows(rows));
}

/// The rows of a table whose items all have one item for each header have
/// one cell for each header.
pub proof fn lemma_rectangular_table(headers: Seq<JsonModel>, rows: Seq<JsonModel>)
    requires
        forall|i: int|
            0 <= i < rows.len() ==> (#[trigger] rows[i] matches JsonModel::Array(cols)
                ==> cols.len() == headers.len()),
    ensures
        forall|i: int|
            0 <= i < table_rows(rows).len() ==> (#[trigger] table_rows(rows)[i]).len()
                == cells(headers).len(),
    decreases rows.len(),
{
    if rows.len() > 0 {
        let front = rows.drop_last();
        assert forall|i: int| 0 <= i < front.len() implies (#[trigger] front[i] matches JsonModel::Array(
            cols,
        ) ==> cols.len() == headers.len()) by {
            assert(front[i] == rows[i]);
        }
        lemma_rectangular_table(headers, front);
        assert(rows.last() == rows[rows.len() - 1]);
        assert forall|i: int| 0 <= i < table_rows(rows).len() implies (#[trigger] table_rows(
            rows,
        )[i]).len() == cells(headers).len() by {
            if i < table_rows(front).len() {
                assert(table_rows(rows)[i] == table_rows(front)[i]);
            }
        }
    }
}

/// Every step keeps a run valid: what `run_valid` says holds in every
/// state that a run can reach.
pub proof fn lemma_run_step_keeps_valid(s: WorkerRunView, e: RunEventView)
    requires
        run_valid(s),
    ensures
        run_valid(run_step(s, e).0),
{
}

/// The access token leaves a run in one action only: the line written to
/// the worker's input, the token and a line feed. No command and no report
/// is made from it.
pub proof fn lemma_token_goes_to_stdin_only(s: WorkerRunView, e: RunEventView)
    requires
        run_valid(s),
    ensures
        run_step(s, e).1 matches RunActionView::WriteSecret { line } ==> s.phase
            == RunPhase::Spawning && line == s.token.push('\n') && run_step(s, e).0.token.len()
            == 0,
        !(run_step(s, e).1 is Spawn),
{
}

} // verus!
