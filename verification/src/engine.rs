//! Decisions of the engine and analysis workflow, as functions from the
//! shell's state to the next action: whether an analysis run may start and
//! how, what a streamed line or a finished request leads to, when an engine
//! connection or a generated move is accepted, and how plugin commands are
//! routed. The caller performs the engine I/O and reports what came back.
use vstd::prelude::*;

use crate::board::Color;
use crate::tab_title::{blank, is_blank, is_white_space, white_space};
use crate::text::{chars_of, str_eq, string_from_chars};

verus! {

/// `g + 1`, wrapping to 0 after `u64::MAX`: the next generation of an engine
/// role, which makes results of older connections stale.
pub open spec fn next_generation(g: u64) -> u64 {
    if g == u64::MAX {
        0
    } else {
        (g + 1) as u64
    }
}

/// The generation following `generation`, wrapping around.
pub fn bump_generation(generation: u64) -> (next: u64)
    ensures
        next == next_generation(generation),
{
    if generation == u64::MAX {
        0
    } else {
        generation + 1
    }
}

/// Search visits of an analysis run: the batch-review profile's, else the
/// `engines.analysis_max_visits` setting, else 500 (0 means unlimited).
pub open spec fn spec_visit_limit(profile_visits: Option<u64>, setting_visits: Option<u64>) -> u64 {
    match profile_visits {
        Some(v) => v,
        None => match setting_visits {
            Some(v) => v,
            None => 500,
        },
    }
}

pub fn analysis_visit_limit(profile_visits: Option<u64>, setting_visits: Option<u64>) -> (visits: u64)
    ensures
        visits == spec_visit_limit(profile_visits, setting_visits),
{
    match profile_visits {
        Some(v) => v,
        None => match setting_visits {
            Some(v) => v,
            None => 500,
        },
    }
}

/// The color whose move is analysed: after a trial move, its opponent;
/// otherwise the player to move.
pub fn analysis_player(next_player: Color, trial_move_color: Option<Color>) -> (player: Color)
    ensures
        player == match trial_move_color {
            Some(c) => c.spec_opponent(),
            None => next_player,
        },
{
    match trial_move_color {
        Some(c) => c.opponent(),
        None => next_player,
    }
}

/// What the shell knows when an analysis run is requested.
#[derive(Clone, Copy, Debug, PartialEq, Eq)]
pub struct AnalysisRequest {
    /// The session policy locks AI analysis off (remote competition).
    pub locked_off: bool,
    /// The request comes from a background review, which the lock allows.
    pub background_review: bool,
    /// An analysis task is already running.
    pub task_running: bool,
    /// The analysis engine is attached.
    pub attached: bool,
    /// An engine is named for the analysis role.
    pub engine_named: bool,
    /// The attached analysis engine is already streaming.
    pub streaming: bool,
    /// The attached analysis engine is ready for a new session.
    pub ready: bool,
    /// The configured analysis command is the bounded `analyze`.
    pub bounded_command: bool,
    /// Current generation of the analysis role.
    pub role_generation: u64,
    /// Visits of the batch-review profile, when one is active.
    pub profile_visits: Option<u64>,
    /// The `engines.analysis_max_visits` setting, when set.
    pub setting_visits: Option<u64>,
}

/// Why an analysis run does not start.
#[derive(Clone, Copy, Debug, PartialEq, Eq)]
pub enum AnalysisRefusal {
    /// AI analysis is locked for this remote competition.
    LockedForCompetition,
    /// Analysis is already running; stop it before starting another run.
    AlreadyRunning,
    /// No analysis engine is selected.
    NoAnalysisEngine,
    /// The analysis engine is already streaming.
    AlreadyStreaming,
    /// The analysis engine is busy; wait for it to become ready.
    EngineBusy,
}

/// How an analysis request proceeds.
#[derive(Clone, Copy, Debug, PartialEq, Eq)]
pub enum AnalysisStartAction {
    Refuse(AnalysisRefusal),
    /// Connect the analysis engine and start once it is ready; the pending
    /// request carries the connection's generation.
    ConnectFirst { role_generation: u64 },
    /// Send one bounded `analyze` request on a leased command session.
    Bounded,
    /// Stream on the attached ready session with this visit limit.
    Stream { max_visits: u64 },
}

pub open spec fn spec_analysis_start(r: AnalysisRequest) -> AnalysisStartAction {
    if r.locked_off && !r.background_review {
        AnalysisStartAction::Refuse(AnalysisRefusal::LockedForCompetition)
    } else if r.task_running {
        AnalysisStartAction::Refuse(AnalysisRefusal::AlreadyRunning)
    } else if !r.attached {
        if r.engine_named {
            AnalysisStartAction::ConnectFirst { role_generation: next_generation(r.role_generation) }
        } else {
            AnalysisStartAction::Refuse(AnalysisRefusal::NoAnalysisEngine)
        }
    } else if r.streaming {
        AnalysisStartAction::Refuse(AnalysisRefusal::AlreadyStreaming)
    } else if r.bounded_command {
        AnalysisStartAction::Bounded
    } else if !r.ready {
        AnalysisStartAction::Refuse(AnalysisRefusal::EngineBusy)
    } else {
        AnalysisStartAction::Stream {
            max_visits: spec_visit_limit(r.profile_visits, r.setting_visits),
        }
    }
}

/// Decides whether and how an analysis run starts.
pub fn analysis_start_action(r: AnalysisRequest) -> (a: AnalysisStartAction)
    ensures
        a == spec_analysis_start(r),
{
    if r.locked_off && !r.background_review {
        AnalysisStartAction::Refuse(AnalysisRefusal::LockedForCompetition)
    } else if r.task_running {
        AnalysisStartAction::Refuse(AnalysisRefusal::AlreadyRunning)
    } else if !r.attached {
        if r.engine_named {
            AnalysisStartAction::ConnectFirst { role_generation: bump_generation(r.role_generation) }
        } else {
            AnalysisStartAction::Refuse(AnalysisRefusal::NoAnalysisEngine)
        }
    } else if r.streaming {
        AnalysisStartAction::Refuse(AnalysisRefusal::AlreadyStreaming)
    } else if r.bounded_command {
        AnalysisStartAction::Bounded
    } else if !r.ready {
        AnalysisStartAction::Refuse(AnalysisRefusal::EngineBusy)
    } else {
        AnalysisStartAction::Stream {
            max_visits: analysis_visit_limit(r.profile_visits, r.setting_visits),
        }
    }
}

/// What a finished bounded `analyze` request leads to.
#[derive(Clone, Copy, Debug, PartialEq, Eq)]
pub enum BoundedResultAction {
    /// The run was cancelled or superseded: stop the session and discard the
    /// lease.
    StopAndDiscard,
    /// Return the lease, apply the entries and finish the run as completed.
    ApplyAndComplete,
    /// A stale success: discard the lease, leave the run alone.
    DiscardLease,
    /// Discard the lease and finish the run as failed.
    DiscardAndFail,
}

pub open spec fn spec_bounded_result(should_dispose: bool, is_current: bool, succeeded: bool) -> BoundedResultAction {
    if should_dispose {
        BoundedResultAction::StopAndDiscard
    } else if succeeded && is_current {
        BoundedResultAction::ApplyAndComplete
    } else if succeeded {
        BoundedResultAction::DiscardLease
    } else {
        BoundedResultAction::DiscardAndFail
    }
}

pub fn bounded_result_action(should_dispose: bool, is_current: bool, succeeded: bool) -> (a: BoundedResultAction)
    ensures
        a == spec_bounded_result(should_dispose, is_current, succeeded),
{
    if should_dispose {
        BoundedResultAction::StopAndDiscard
    } else if succeeded && is_current {
        BoundedResultAction::ApplyAndComplete
    } else if succeeded {
        BoundedResultAction::DiscardLease
    } else {
        BoundedResultAction::DiscardAndFail
    }
}

/// What one line read from a running analysis stream leads to.
#[derive(Clone, Copy, Debug, PartialEq, Eq)]
pub enum StreamLineAction {
    /// A blank line or a GTP response header: skip it.
    Skip,
    /// Keep the line's entries; `target_reached` stops the search next.
    Entries { target_reached: bool },
    /// Keep the line's entries and end the run as completed (a JSON proxy's
    /// final record).
    Completed,
}

pub open spec fn spec_stream_line(
    blank_or_header: bool,
    kata_analyze: bool,
    json_record: bool,
    has_final_entry: bool,
    max_visits: u64,
    best_visits: u64,
) -> StreamLineAction {
    if blank_or_header {
        StreamLineAction::Skip
    } else if kata_analyze && json_record && has_final_entry {
        StreamLineAction::Completed
    } else {
        StreamLineAction::Entries { target_reached: max_visits > 0 && best_visits >= max_visits }
    }
}

/// Classifies a streamed line: `kata_analyze` whether the command is
/// `kata-analyze`, `json_record` whether the line starts with `{`,
/// `has_final_entry` whether one of its entries is no longer searching, and
/// `best_visits` the most visits among its entries (0 without entries).
pub fn stream_line_action(
    blank_or_header: bool,
    kata_analyze: bool,
    json_record: bool,
    has_final_entry: bool,
    max_visits: u64,
    best_visits: u64,
) -> (a: StreamLineAction)
    ensures
        a == spec_stream_line(blank_or_header, kata_analyze, json_record, has_final_entry, max_visits, best_visits),
{
    if blank_or_header {
        StreamLineAction::Skip
    } else if kata_analyze && json_record && has_final_entry {
        StreamLineAction::Completed
    } else {
        StreamLineAction::Entries { target_reached: max_visits > 0 && best_visits >= max_visits }
    }
}

/// What one line read while draining a stopped stream leads to.
#[derive(Clone, Copy, Debug, PartialEq, Eq)]
pub enum DrainLineAction {
    /// A GTP response header: note it and read on.
    Header,
    /// A blank line after the header: the stream's tail is drained.
    Done,
    /// A blank line before any header: read on.
    Skip,
    /// Keep the line's entries.
    Entries,
}

pub open spec fn spec_drain_line(saw_header: bool, header: bool, blank: bool) -> DrainLineAction {
    if header {
        DrainLineAction::Header
    } else if blank {
        if saw_header {
            DrainLineAction::Done
        } else {
            DrainLineAction::Skip
        }
    } else {
        DrainLineAction::Entries
    }
}

pub fn drain_line_action(saw_header: bool, header: bool, blank: bool) -> (a: DrainLineAction)
    ensures
        a == spec_drain_line(saw_header, header, blank),
{
    if header {
        DrainLineAction::Header
    } else if blank {
        if saw_header {
            DrainLineAction::Done
        } else {
            DrainLineAction::Skip
        }
    } else {
        DrainLineAction::Entries
    }
}

/// Pending streamed entries are pushed to the board once 120 ms have passed
/// since the last push.
pub fn should_flush_batch(elapsed_millis: u128, pending: usize) -> (flush: bool)
    ensures
        flush == (elapsed_millis >= 120 && pending > 0),
{
    elapsed_millis >= 120 && pending > 0
}

/// How a stream that stopped reading ends.
#[derive(Clone, Copy, Debug, PartialEq, Eq)]
pub enum StreamEndAction {
    /// Cancelled or superseded: stop the session, discard it, finish the run
    /// as cancelled.
    Cancel,
    /// Failed: stop the session, discard it, finish the run as failed.
    Fail,
    /// Return the session to the controller and finish the run.
    ReturnSession,
}

pub open spec fn spec_stream_end(should_dispose: bool, failed: bool) -> StreamEndAction {
    if should_dispose {
        StreamEndAction::Cancel
    } else if failed {
        StreamEndAction::Fail
    } else {
        StreamEndAction::ReturnSession
    }
}

pub fn stream_end_action(should_dispose: bool, failed: bool) -> (a: StreamEndAction)
    ensures
        a == spec_stream_end(should_dispose, failed),
{
    if should_dispose {
        StreamEndAction::Cancel
    } else if failed {
        StreamEndAction::Fail
    } else {
        StreamEndAction::ReturnSession
    }
}

/// What the shell knows when an engine role is to be connected.
#[derive(Clone, Copy, Debug, PartialEq, Eq)]
pub struct ConnectRequest {
    /// A connection of this role is already in progress.
    pub connecting: bool,
    /// The role is the analysis role.
    pub analysis_role: bool,
    /// An analysis task is running.
    pub analysis_running: bool,
    /// The role's engine is already attached.
    pub attached: bool,
    /// An engine record is configured for the role.
    pub record_found: bool,
    /// The record passes the engine start-up check.
    pub record_valid: bool,
    /// Current generation of the role.
    pub generation: u64,
}

/// Why an engine connection does not start.
#[derive(Clone, Copy, Debug, PartialEq, Eq)]
pub enum ConnectRefusal {
    InProgress,
    StopAnalysisFirst,
    AlreadyAttached,
    NoEngineConfigured,
    EngineCheckFailed,
}

#[derive(Clone, Copy, Debug, PartialEq, Eq)]
pub enum ConnectAction {
    Refuse(ConnectRefusal),
    /// Start the engine process; its result belongs to this generation.
    Connect { generation: u64 },
}

pub open spec fn spec_connect(r: ConnectRequest) -> ConnectAction {
    if r.connecting {
        ConnectAction::Refuse(ConnectRefusal::InProgress)
    } else if r.analysis_role && r.analysis_running {
        ConnectAction::Refuse(ConnectRefusal::StopAnalysisFirst)
    } else if r.attached {
        ConnectAction::Refuse(ConnectRefusal::AlreadyAttached)
    } else if !r.record_found {
        ConnectAction::Refuse(ConnectRefusal::NoEngineConfigured)
    } else if !r.record_valid {
        ConnectAction::Refuse(ConnectRefusal::EngineCheckFailed)
    } else {
        ConnectAction::Connect { generation: next_generation(r.generation) }
    }
}

/// Decides whether an engine connection starts, and its generation.
pub fn engine_connect_action(r: ConnectRequest) -> (a: ConnectAction)
    ensures
        a == spec_connect(r),
{
    if r.connecting {
        ConnectAction::Refuse(ConnectRefusal::InProgress)
    } else if r.analysis_role && r.analysis_running {
        ConnectAction::Refuse(ConnectRefusal::StopAnalysisFirst)
    } else if r.attached {
        ConnectAction::Refuse(ConnectRefusal::AlreadyAttached)
    } else if !r.record_found {
        ConnectAction::Refuse(ConnectRefusal::NoEngineConfigured)
    } else if !r.record_valid {
        ConnectAction::Refuse(ConnectRefusal::EngineCheckFailed)
    } else {
        ConnectAction::Connect { generation: bump_generation(r.generation) }
    }
}

/// What the shell knows when a connection attempt reports back.
#[derive(Clone, Copy, Debug, PartialEq, Eq)]
pub struct ConnectReport {
    /// The role's generation now.
    pub current_generation: u64,
    /// The generation the connection was started with.
    pub connection_generation: u64,
    /// The engine process started and completed its handshake.
    pub connected: bool,
    /// The prepared session was attached to the controller.
    pub attached: bool,
    /// The role is the analysis role.
    pub analysis_role: bool,
    /// Automatic analysis is enabled.
    pub analysis_enabled: bool,
    /// The pending analysis request matches this role, generation and the
    /// current node.
    pub pending_analysis_matches: bool,
    /// The pending engine move matches this role, generation and the color to
    /// move.
    pub pending_move_matches: bool,
    /// A pending analysis request exists for this role and generation.
    pub pending_request_of_connection: bool,
}

#[derive(Clone, Copy, Debug, PartialEq, Eq)]
pub enum ConnectOutcome {
    /// A superseded connection succeeded: stop its session.
    StopStaleSession,
    /// A superseded connection failed: nothing to do.
    IgnoreStale,
    /// The engine is ready; start the pending analysis and play the pending
    /// move when they match.
    Ready { auto_analysis: bool, start_pending_analysis: bool, play_pending_move: bool },
    /// Attaching the prepared session failed.
    AttachFailed,
    /// The connection failed; drop the pending analysis request when it was
    /// waiting for this connection.
    Failed { drop_pending_request: bool },
}

pub open spec fn spec_connect_outcome(r: ConnectReport) -> ConnectOutcome {
    if r.current_generation != r.connection_generation {
        if r.connected {
            ConnectOutcome::StopStaleSession
        } else {
            ConnectOutcome::IgnoreStale
        }
    } else if r.connected {
        if r.attached {
            ConnectOutcome::Ready {
                auto_analysis: r.analysis_role && r.analysis_enabled,
                start_pending_analysis: r.pending_analysis_matches,
                play_pending_move: r.pending_move_matches,
            }
        } else {
            ConnectOutcome::AttachFailed
        }
    } else {
        ConnectOutcome::Failed { drop_pending_request: r.pending_request_of_connection }
    }
}

/// Decides what a connection result leads to; a result of a superseded
/// generation never touches the shell.
pub fn connect_outcome(r: ConnectReport) -> (o: ConnectOutcome)
    ensures
        o == spec_connect_outcome(r),
{
    if r.current_generation != r.connection_generation {
        if r.connected {
            ConnectOutcome::StopStaleSession
        } else {
            ConnectOutcome::IgnoreStale
        }
    } else if r.connected {
        if r.attached {
            ConnectOutcome::Ready {
                auto_analysis: r.analysis_role && r.analysis_enabled,
                start_pending_analysis: r.pending_analysis_matches,
                play_pending_move: r.pending_move_matches,
            }
        } else {
            ConnectOutcome::AttachFailed
        }
    } else {
        ConnectOutcome::Failed { drop_pending_request: r.pending_request_of_connection }
    }
}

/// Whether an engine move may be requested.
#[derive(Clone, Copy, Debug, PartialEq, Eq)]
pub enum GenmoveStart {
    /// The game clock has run out: do nothing.
    ClockExpired,
    /// The engine is busy with a command or a stream.
    Busy,
    /// Lease a command session and ask for the move.
    Lease,
}

pub open spec fn spec_genmove_start(clock_expired: bool, command_running: bool, streaming: bool) -> GenmoveStart {
    if clock_expired {
        GenmoveStart::ClockExpired
    } else if command_running || streaming {
        GenmoveStart::Busy
    } else {
        GenmoveStart::Lease
    }
}

pub fn genmove_start_action(clock_expired: bool, command_running: bool, streaming: bool) -> (a: GenmoveStart)
    ensures
        a == spec_genmove_start(clock_expired, command_running, streaming),
{
    if clock_expired {
        GenmoveStart::ClockExpired
    } else if command_running || streaming {
        GenmoveStart::Busy
    } else {
        GenmoveStart::Lease
    }
}

/// The GTP color argument of `genmove`.
pub fn gtp_color(color: Color) -> (s: &'static str)
    ensures
        s == match color {
            Color::Black => "B",
            Color::White => "W",
        },
{
    match color {
        Color::Black => "B",
        Color::White => "W",
    }
}

/// What a finished `genmove` leads to.
#[derive(Clone, Copy, Debug, PartialEq, Eq)]
pub enum GenmoveResult {
    /// The role was reconnected meanwhile: discard the lease, stop the session.
    DropStale,
    /// Return the lease and play the engine's move.
    Play,
    /// The engine answered with an error: return the lease and report it.
    Rejected,
    /// The request failed: discard the lease and report it.
    Failed,
}

pub open spec fn spec_genmove_result(generation_matches: bool, transport_ok: bool, response_success: bool) -> GenmoveResult {
    if !generation_matches {
        GenmoveResult::DropStale
    } else if !transport_ok {
        GenmoveResult::Failed
    } else if response_success {
        GenmoveResult::Play
    } else {
        GenmoveResult::Rejected
    }
}

pub fn genmove_result_action(generation_matches: bool, transport_ok: bool, response_success: bool) -> (a: GenmoveResult)
    ensures
        a == spec_genmove_result(generation_matches, transport_ok, response_success),
{
    if !generation_matches {
        GenmoveResult::DropStale
    } else if !transport_ok {
        GenmoveResult::Failed
    } else if response_success {
        GenmoveResult::Play
    } else {
        GenmoveResult::Rejected
    }
}

/// Size of a downloadable KataGo model.
#[derive(Clone, Copy, Debug, PartialEq, Eq)]
pub enum ModelTier {
    Balanced,
    Lightweight,
    Strongest,
}

/// The commands built into the shell's plugin panel.
#[derive(Clone, Copy, Debug, PartialEq, Eq)]
pub enum BuiltinCommand {
    KataGoRefresh,
    KataGoUpdateBinary,
    KataGoSetup,
    KataGoDownload(ModelTier),
    FoxFetchLatest,
    PositionCheck,
    SgfExport,
}

/// How an installed plugin runs.
#[derive(Clone, Copy, Debug, PartialEq, Eq)]
pub enum PluginRuntime {
    Native,
    Wasm,
    Declarative,
}

/// Where a plugin command goes.
#[derive(Clone, Copy, Debug, PartialEq, Eq)]
pub enum PluginRoute {
    Builtin(BuiltinCommand),
    NotInstalled,
    Native,
    Wasm,
    Declarative,
}

pub open spec fn spec_plugin_route(builtin: Option<BuiltinCommand>, runtime: Option<PluginRuntime>) -> PluginRoute {
    match builtin {
        Some(b) => PluginRoute::Builtin(b),
        None => match runtime {
            None => PluginRoute::NotInstalled,
            Some(PluginRuntime::Native) => PluginRoute::Native,
            Some(PluginRuntime::Wasm) => PluginRoute::Wasm,
            Some(PluginRuntime::Declarative) => PluginRoute::Declarative,
        },
    }
}

/// Routes a plugin command: built-in commands first, then by the installed
/// plugin's runtime (`None` when it is not installed).
pub fn plugin_command_route(builtin: Option<BuiltinCommand>, runtime: Option<PluginRuntime>) -> (route: PluginRoute)
    ensures
        route == spec_plugin_route(builtin, runtime),
{
    match builtin {
        Some(b) => PluginRoute::Builtin(b),
        None => match runtime {
            None => PluginRoute::NotInstalled,
            Some(PluginRuntime::Native) => PluginRoute::Native,
            Some(PluginRuntime::Wasm) => PluginRoute::Wasm,
            Some(PluginRuntime::Declarative) => PluginRoute::Declarative,
        },
    }
}

/// What a finished KataGo setup leads to.
#[derive(Clone, Copy, Debug, PartialEq, Eq)]
pub enum KataGoSetupOutcome {
    /// Executable and model are there: connect the analysis engine.
    ConnectAndAnalyze,
    /// The executable is there but no model is downloaded yet.
    NeedsModel,
    /// No KataGo executable was found.
    NeedsExecutable,
}

/// The follow-up of a successful KataGo setup.
#[derive(Clone, Copy, Debug, PartialEq, Eq)]
pub struct KataGoSetupPlan {
    /// Enable the default human-style (SL) profile.
    pub enable_human_sl: bool,
    /// Assign the new engine to the analysis role (none was assigned).
    pub assign_analysis: bool,
    /// Assign the new engine to the white role (none was assigned).
    pub assign_white: bool,
    pub outcome: KataGoSetupOutcome,
}

pub open spec fn spec_katago_setup_plan(
    human_sl_setting: Option<bool>,
    normal_model_found: bool,
    analysis_assigned: bool,
    white_assigned: bool,
    executable_exists: bool,
    model_exists: bool,
) -> KataGoSetupPlan {
    KataGoSetupPlan {
        enable_human_sl: match human_sl_setting {
            Some(b) => b,
            None => true,
        } && normal_model_found,
        assign_analysis: !analysis_assigned,
        assign_white: !white_assigned,
        outcome: if executable_exists && model_exists {
            KataGoSetupOutcome::ConnectAndAnalyze
        } else if executable_exists {
            KataGoSetupOutcome::NeedsModel
        } else {
            KataGoSetupOutcome::NeedsExecutable
        },
    }
}

/// Plans the follow-up of a KataGo setup: human-style play is enabled when
/// the `katago.human_sl_enabled` setting (default on) allows it and a normal
/// model is installed; unassigned analysis and white roles get the new
/// engine; the message depends on which of executable and model exist.
pub fn katago_setup_plan(
    human_sl_setting: Option<bool>,
    normal_model_found: bool,
    analysis_assigned: bool,
    white_assigned: bool,
    executable_exists: bool,
    model_exists: bool,
) -> (plan: KataGoSetupPlan)
    ensures
        plan == spec_katago_setup_plan(
            human_sl_setting,
            normal_model_found,
            analysis_assigned,
            white_assigned,
            executable_exists,
            model_exists,
        ),
{
    let human_sl_allowed = match human_sl_setting {
        Some(b) => b,
        None => true,
    };
    KataGoSetupPlan {
        enable_human_sl: human_sl_allowed && normal_model_found,
        assign_analysis: !analysis_assigned,
        assign_white: !white_assigned,
        outcome: if executable_exists && model_exists {
            KataGoSetupOutcome::ConnectAndAnalyze
        } else if executable_exists {
            KataGoSetupOutcome::NeedsModel
        } else {
            KataGoSetupOutcome::NeedsExecutable
        },
    }
}

/// Number of entries of `row` equal to `sign`.
pub open spec fn row_count(row: Seq<i8>, sign: i8) -> nat
    decreases row.len(),
{
    if row.len() == 0 {
        0
    } else {
        row_count(row.drop_last(), sign) + if row.last() == sign {
            1nat
        } else {
            0nat
        }
    }
}

/// Number of entries of the rows equal to `sign`.
pub open spec fn board_count(rows: Seq<Seq<i8>>, sign: i8) -> nat
    decreases rows.len(),
{
    if rows.len() == 0 {
        0
    } else {
        board_count(rows.drop_last(), sign) + row_count(rows.last(), sign)
    }
}

/// Number of intersections of the rows.
pub open spec fn board_cells(rows: Seq<Seq<i8>>) -> nat
    decreases rows.len(),
{
    if rows.len() == 0 {
        0
    } else {
        board_cells(rows.drop_last()) + rows.last().len()
    }
}

proof fn lemma_row_count_bound(row: Seq<i8>, sign: i8)
    ensures
        row_count(row, sign) <= row.len(),
    decreases row.len(),
{
    if row.len() > 0 {
        lemma_row_count_bound(row.drop_last(), sign);
    }
}

pub open spec fn sign_rows(sign_map: Seq<Vec<i8>>) -> Seq<Seq<i8>> {
    sign_map.map_values(|row: Vec<i8>| row@)
}

/// The position check of the plugin panel: how many black (`1`) and white
/// (`-1`) stones the sign map holds.
pub fn count_stones(sign_map: &Vec<Vec<i8>>) -> (counts: (usize, usize))
    requires
        board_cells(sign_rows(sign_map@)) <= usize::MAX,
    ensures
        counts.0 == board_count(sign_rows(sign_map@), 1i8),
        counts.1 == board_count(sign_rows(sign_map@), -1i8),
{
    let ghost rows = sign_rows(sign_map@);
    let mut black: usize = 0;
    let mut white: usize = 0;
    let mut r: usize = 0;
    while r < sign_map.len()
        invariant
            rows == sign_rows(sign_map@),
            r <= sign_map.len(),
            board_cells(rows) <= usize::MAX,
            black == board_count(rows.take(r as int), 1i8),
            white == board_count(rows.take(r as int), -1i8),
            black <= board_cells(rows.take(r as int)),
            white <= board_cells(rows.take(r as int)),
        decreases sign_map.len() - r,
    {
        let row = &sign_map[r];
        let ghost prefix = rows.take(r as int);
        assert(rows.take(r + 1).drop_last() =~= prefix);
        assert(rows.take(r + 1).last() == row@);
        proof {
            lemma_cells_prefix(rows, r + 1);
            lemma_row_count_bound(row@, 1i8);
            lemma_row_count_bound(row@, -1i8);
        }
        let mut c: usize = 0;
        while c < row.len()
            invariant
                r < sign_map.len(),
                row@ == rows[r as int],
                c <= row.len(),
                black + row.len() - c <= usize::MAX,
                white + row.len() - c <= usize::MAX,
                black == board_count(prefix, 1i8) + row_count(row@.take(c as int), 1i8),
                white == board_count(prefix, -1i8) + row_count(row@.take(c as int), -1i8),
                black <= board_count(prefix, 1i8) + c,
                white <= board_count(prefix, -1i8) + c,
                board_count(prefix, 1i8) + row.len() <= usize::MAX,
                board_count(prefix, -1i8) + row.len() <= usize::MAX,
            decreases row.len() - c,
        {
            assert(row@.take(c + 1).drop_last() =~= row@.take(c as int));
            if row[c] == 1 {
                black += 1;
            } else if row[c] == -1 {
                white += 1;
            }
            c += 1;
        }
        assert(row@.take(c as int) =~= row@);
        r += 1;
    }
    assert(rows.take(r as int) =~= rows);
    (black, white)
}

proof fn lemma_cells_prefix(rows: Seq<Seq<i8>>, k: int)
    requires
        0 <= k <= rows.len(),
    ensures
        board_cells(rows.take(k)) <= board_cells(rows),
        board_count(rows.take(k), 1i8) <= board_cells(rows.take(k)),
        board_count(rows.take(k), -1i8) <= board_cells(rows.take(k)),
    decreases rows.len(),
{
    if k == rows.len() {
        assert(rows.take(k) =~= rows);
    } else {
        lemma_cells_prefix(rows.drop_last(), k);
        assert(rows.drop_last().take(k) =~= rows.take(k));
    }
    lemma_count_bound(rows.take(k));
}

proof fn lemma_count_bound(rows: Seq<Seq<i8>>)
    ensures
        board_count(rows, 1i8) <= board_cells(rows),
        board_count(rows, -1i8) <= board_cells(rows),
    decreases rows.len(),
{
    if rows.len() > 0 {
        lemma_count_bound(rows.drop_last());
        lemma_row_count_bound(rows.last(), 1i8);
        lemma_row_count_bound(rows.last(), -1i8);
    }
}

/// How an analysis run ended.
#[derive(Clone, Copy, Debug, PartialEq, Eq)]
pub enum RunOutcome {
    Completed,
    Cancelled,
    Failed,
}

/// What the end of an analysis run leads to.
#[derive(Clone, Copy, Debug, PartialEq, Eq)]
pub enum FinishedAction {
    /// A superseded run: only release the analysis task.
    Stale,
    /// Whole-game review: go to the next node and analyse it.
    ReviewNext,
    /// Whole-game review ends with this outcome: return to the original node.
    ReviewEnded { outcome: RunOutcome },
    /// An ordinary run ends with this outcome; `trial` for a trial-move run.
    Report { outcome: RunOutcome, trial: bool },
}

/// The outcome once a completed ordinary run's result is persisted: a
/// completed run with nothing persistable counts as failed.
pub open spec fn settled_outcome(outcome: RunOutcome, was_trial: bool, persisted: bool) -> RunOutcome {
    if outcome == RunOutcome::Completed && !was_trial && !persisted {
        RunOutcome::Failed
    } else {
        outcome
    }
}

pub open spec fn spec_analysis_finished(
    run_current: bool,
    outcome: RunOutcome,
    was_trial: bool,
    persisted: bool,
    batch_active: bool,
    next_target: bool,
) -> FinishedAction {
    let o = settled_outcome(outcome, was_trial, persisted);
    if !run_current {
        FinishedAction::Stale
    } else if batch_active && o == RunOutcome::Completed {
        if next_target {
            FinishedAction::ReviewNext
        } else {
            FinishedAction::ReviewEnded { outcome: RunOutcome::Completed }
        }
    } else if batch_active {
        FinishedAction::ReviewEnded { outcome: o }
    } else {
        FinishedAction::Report { outcome: o, trial: was_trial }
    }
}

/// Decides what the end of an analysis run leads to: `run_current` whether
/// the run is still the current one, `persisted` whether a completed
/// ordinary run's candidates were saved, `batch_active` whether a
/// whole-game review is under way and `next_target` whether it has a next
/// node.
pub fn analysis_finished_action(
    run_current: bool,
    outcome: RunOutcome,
    was_trial: bool,
    persisted: bool,
    batch_active: bool,
    next_target: bool,
) -> (a: FinishedAction)
    ensures
        a == spec_analysis_finished(run_current, outcome, was_trial, persisted, batch_active, next_target),
{
    let completed = match outcome {
        RunOutcome::Completed => true,
        _ => false,
    };
    let settled = if completed && !was_trial && !persisted {
        RunOutcome::Failed
    } else {
        outcome
    };
    let settled_completed = match settled {
        RunOutcome::Completed => true,
        _ => false,
    };
    if !run_current {
        FinishedAction::Stale
    } else if batch_active && settled_completed {
        if next_target {
            FinishedAction::ReviewNext
        } else {
            FinishedAction::ReviewEnded { outcome: RunOutcome::Completed }
        }
    } else if batch_active {
        FinishedAction::ReviewEnded { outcome: settled }
    } else {
        FinishedAction::Report { outcome: settled, trial: was_trial }
    }
}

/// The engine roles of the shell.
#[derive(Clone, Copy, Debug, PartialEq, Eq, Structural)]
pub enum EngineRole {
    Black,
    White,
    Analysis,
}

/// An analysis run waiting for its engine role to finish connecting.
#[derive(Clone, Debug, PartialEq, Eq)]
pub struct PendingAnalysisRequest {
    pub role: EngineRole,
    pub role_generation: u64,
    pub node_id: String,
}

impl PendingAnalysisRequest {
    /// Whether a connection of `role` in `role_generation`, with `node_id`
    /// current, is the one this request waits for.
    pub fn matches(&self, role: EngineRole, role_generation: u64, node_id: &str) -> (m: bool)
        ensures
            m == (self.role == role && self.role_generation == role_generation && self.node_id@
                == node_id@),
    {
        self.role == role && self.role_generation == role_generation && str_eq(
            self.node_id.as_str(),
            node_id,
        )
    }
}

/// An engine move waiting for its engine role to finish connecting.
#[derive(Clone, Copy, Debug, PartialEq, Eq)]
pub struct PendingEngineMove {
    pub role: EngineRole,
    pub role_generation: u64,
    pub color: Color,
}

impl PendingEngineMove {
    /// Whether a connection of `role` in `role_generation`, with `color` to
    /// move, is the one this move waits for.
    pub fn matches(&self, role: EngineRole, role_generation: u64, color: Color) -> (m: bool)
        ensures
            m == (self.role == role && self.role_generation == role_generation && self.color
                == color),
    {
        self.role == role && self.role_generation == role_generation && self.color == color
    }
}

/// What a command typed into the engine console leads to.
#[derive(Clone, Copy, Debug, PartialEq, Eq)]
pub enum EngineCommandAction {
    /// The draft is blank: nothing happens.
    Ignore,
    /// The role is streaming analysis and takes no raw command.
    RefuseStreaming,
    /// The role is configured but not attached: connect it; the command is
    /// to be retried once it is ready.
    ConnectFirst,
    /// The role is completing another command.
    Busy,
    /// Lease a command session and send the command.
    Send,
}

pub open spec fn spec_engine_command_action(
    draft: Seq<char>,
    attached: bool,
    configured: bool,
    busy: bool,
    streaming: bool,
) -> EngineCommandAction {
    if is_blank(draft) {
        EngineCommandAction::Ignore
    } else if streaming {
        EngineCommandAction::RefuseStreaming
    } else if !attached && configured {
        EngineCommandAction::ConnectFirst
    } else if busy {
        EngineCommandAction::Busy
    } else {
        EngineCommandAction::Send
    }
}

/// Decides what a console command does: `attached` and `configured` describe
/// the console's engine role, `busy` whether a command of it is still
/// pending, `streaming` whether it is streaming analysis.
pub fn engine_command_action(
    draft: &str,
    attached: bool,
    configured: bool,
    busy: bool,
    streaming: bool,
) -> (a: EngineCommandAction)
    ensures
        a == spec_engine_command_action(draft@, attached, configured, busy, streaming),
{
    if blank(draft) {
        EngineCommandAction::Ignore
    } else if streaming {
        EngineCommandAction::RefuseStreaming
    } else if !attached && configured {
        EngineCommandAction::ConnectFirst
    } else if busy {
        EngineCommandAction::Busy
    } else {
        EngineCommandAction::Send
    }
}

/// The words of `s` read so far, and the word under way: words are maximal
/// runs of characters that are not white space.
pub open spec fn words_state(s: Seq<char>) -> (Seq<Seq<char>>, Seq<char>)
    decreases s.len(),
{
    if s.len() == 0 {
        (Seq::empty(), Seq::empty())
    } else {
        let (done, current) = words_state(s.drop_last());
        if is_white_space(s.last()) {
            if current.len() > 0 {
                (done.push(current), Seq::empty())
            } else {
                (done, Seq::empty())
            }
        } else {
            (done, current.push(s.last()))
        }
    }
}

/// The words of `s`, as `str::split_whitespace` yields them.
pub open spec fn words(s: Seq<char>) -> Seq<Seq<char>> {
    let (done, current) = words_state(s);
    if current.len() > 0 {
        done.push(current)
    } else {
        done
    }
}

pub open spec fn string_view() -> spec_fn(String) -> Seq<char> {
    |s: String| s@
}

/// Splits a console line into the command name (its first word, empty when
/// there is none) and its arguments (the other words).
pub fn parse_engine_command_line(draft: &str) -> (parsed: (String, Vec<String>))
    ensures
        parsed.0@ == if words(draft@).len() > 0 {
            words(draft@)[0]
        } else {
            Seq::empty()
        },
        parsed.1@.map_values(string_view()) == if words(draft@).len() > 0 {
            words(draft@).drop_first()
        } else {
            Seq::empty()
        },
{
    let chars = chars_of(draft);
    let mut done: Vec<String> = Vec::new();
    let mut current: Vec<char> = Vec::new();
    let mut i: usize = 0;
    while i < chars.len()
        invariant
            chars@ == draft@,
            i <= chars@.len(),
            (done@.map_values(string_view()), current@) == words_state(chars@.take(i as int)),
        decreases chars.len() - i,
    {
        assert(chars@.take(i + 1).drop_last() =~= chars@.take(i as int));
        let c = chars[i];
        if white_space(c) {
            if current.len() > 0 {
                let word = string_from_chars(&current);
                let ghost before = done@;
                done.push(word);
                assert(done@.map_values(string_view()) =~= before.map_values(string_view()).push(
                    current@,
                ));
            }
            current = Vec::new();
        } else {
            current.push(c);
        }
        i += 1;
    }
    assert(chars@.take(i as int) =~= draft@);
    if current.len() > 0 {
        let word = string_from_chars(&current);
        let ghost before = done@;
        done.push(word);
        assert(done@.map_values(string_view()) =~= before.map_values(string_view()).push(
            current@,
        ));
    }
    let ghost all = done@.map_values(string_view());
    assert(all == words(draft@));
    if done.len() == 0 {
        (String::new(), done)
    } else {
        let name = done.remove(0);
        assert(done@.map_values(string_view()) =~= all.drop_first());
        (name, done)
    }
}

/// Appends the characters of `s` to `out`.
fn push_str_chars(out: &mut Vec<char>, s: &str)
    ensures
        final(out)@ == old(out)@ + s@,
{
    let chars = chars_of(s);
    let ghost start = out@;
    let mut i: usize = 0;
    while i < chars.len()
        invariant
            chars@ == s@,
            i <= chars@.len(),
            out@ == start + chars@.take(i as int),
        decreases chars.len() - i,
    {
        out.push(chars[i]);
        i += 1;
        assert(out@ =~= start + chars@.take(i as int));
    }
    assert(chars@.take(i as int) =~= s@);
}

/// The comment a review writes to a node: the annotation under a
/// `Ryusei Review` heading, appended after a blank line to an existing
/// comment that is not blank.
pub open spec fn spec_review_comment(existing: Option<Seq<char>>, annotation: Seq<char>) -> Seq<char> {
    match existing {
        Some(e) => if !is_blank(e) {
            e + "\n\nRyusei Review\n"@ + annotation
        } else {
            "Ryusei Review\n"@ + annotation
        },
        None => "Ryusei Review\n"@ + annotation,
    }
}

/// Merges a review annotation into a node's existing comment.
pub fn review_comment(existing: Option<&str>, annotation: &str) -> (comment: String)
    ensures
        comment@ == spec_review_comment(
            match existing {
                Some(e) => Some(e@),
                None => None,
            },
            annotation@,
        ),
{
    let mut out: Vec<char> = Vec::new();
    let keep = match existing {
        Some(e) => !blank(e),
        None => false,
    };
    if keep {
        match existing {
            Some(e) => {
                push_str_chars(&mut out, e);
                push_str_chars(&mut out, "\n\n");
            },
            None => {},
        }
    }
    push_str_chars(&mut out, "Ryusei Review\n");
    push_str_chars(&mut out, annotation);
    proof {
        reveal_strlit("\n\n");
        reveal_strlit("Ryusei Review\n");
        reveal_strlit("\n\nRyusei Review\n");
        assert("\n\n"@ + "Ryusei Review\n"@ =~= "\n\nRyusei Review\n"@);
    }
    let comment = string_from_chars(&out);
    proof {
        match existing {
            Some(e) => {
                if keep {
                    assert(out@ =~= e@ + "\n\nRyusei Review\n"@ + annotation@);
                } else {
                    assert(out@ =~= "Ryusei Review\n"@ + annotation@);
                }
            },
            None => {
                assert(out@ =~= "Ryusei Review\n"@ + annotation@);
            },
        }
    }
    comment
}

} // verus!

verus! {

/// The visit limit of an analysis run: the review profile's visits when a
/// profile is active, else the `engines.analysis_max_visits` setting, else
/// 500.
pub proof fn law_visit_limit_prefers_profile_then_setting(profile: Option<u64>, setting: Option<u64>)
    ensures
        profile matches Some(v) ==> spec_visit_limit(profile, setting) == v,
        profile is None ==> (setting matches Some(v) ==> spec_visit_limit(profile, setting) == v),
        profile is None && setting is None ==> spec_visit_limit(profile, setting) == 500,
{
}

/// An analysis run streams exactly when the request passes every check (no
/// competition lock outside background review, no running task, an
/// attached, idle and ready engine, a streaming command), and then with the
/// profile's visits, else the setting's, else 500. A locked request, a
/// running task or a streaming engine is always refused.
pub proof fn law_analysis_streams_with_the_configured_visits(r: AnalysisRequest)
    ensures
        (spec_analysis_start(r) is Stream) <==> (!(r.locked_off && !r.background_review)
            && !r.task_running && r.attached && !r.streaming && !r.bounded_command && r.ready),
        spec_analysis_start(r) matches AnalysisStartAction::Stream { max_visits } ==> max_visits
            == match r.profile_visits {
            Some(v) => v,
            None => match r.setting_visits {
                Some(v) => v,
                None => 500u64,
            },
        },
        r.locked_off && !r.background_review ==> spec_analysis_start(r) == AnalysisStartAction::Refuse(
            AnalysisRefusal::LockedForCompetition,
        ),
        !(r.locked_off && !r.background_review) && r.task_running ==> spec_analysis_start(r)
            == AnalysisStartAction::Refuse(AnalysisRefusal::AlreadyRunning),
        spec_analysis_start(r) matches AnalysisStartAction::ConnectFirst { role_generation } ==> !r.attached
            && r.engine_named && role_generation == (if r.role_generation == u64::MAX {
            0
        } else {
            r.role_generation + 1
        }),
        spec_analysis_start(r) is Bounded ==> r.attached && r.bounded_command && !r.streaming,
{
}

/// An engine move is asked for only when the clock runs, no command is
/// running on the role and it is not streaming; a running command or stream
/// makes the engine busy, an expired clock stops everything.
pub proof fn law_genmove_waits_for_an_idle_engine(clock_expired: bool, command_running: bool, streaming: bool)
    ensures
        (spec_genmove_start(clock_expired, command_running, streaming) == GenmoveStart::Lease) <==> (
        !clock_expired && !command_running && !streaming),
        clock_expired ==> spec_genmove_start(clock_expired, command_running, streaming)
            == GenmoveStart::ClockExpired,
        !clock_expired && command_running ==> spec_genmove_start(clock_expired, command_running, streaming)
            == GenmoveStart::Busy,
        !clock_expired && streaming ==> spec_genmove_start(clock_expired, command_running, streaming)
            == GenmoveStart::Busy,
{
}

/// A generated move is played only when it belongs to the current
/// generation and the engine answered successfully.
pub proof fn law_genmove_plays_only_current_successes(generation_matches: bool, transport_ok: bool, response_success: bool)
    ensures
        (spec_genmove_result(generation_matches, transport_ok, response_success) == GenmoveResult::Play)
            <==> (generation_matches && transport_ok && response_success),
        !generation_matches ==> spec_genmove_result(generation_matches, transport_ok, response_success)
            == GenmoveResult::DropStale,
{
}

/// An engine connection starts only when none is in progress, no analysis
/// runs on the analysis role, the engine is not attached and a valid record
/// is configured, and then with the next generation.
pub proof fn law_connect_only_when_free(r: ConnectRequest)
    ensures
        (spec_connect(r) is Connect) <==> (!r.connecting && !(r.analysis_role && r.analysis_running)
            && !r.attached && r.record_found && r.record_valid),
        spec_connect(r) matches ConnectAction::Connect { generation } ==> generation == (if r.generation
            == u64::MAX {
            0
        } else {
            r.generation + 1
        }),
{
}

/// A connection result of a superseded generation never makes the engine
/// ready or fails the shell; a current one is ready exactly when it connected
/// and attached.
pub proof fn law_stale_connections_never_touch_the_shell(r: ConnectReport)
    ensures
        r.current_generation != r.connection_generation ==> (spec_connect_outcome(r)
            == ConnectOutcome::StopStaleSession || spec_connect_outcome(r) == ConnectOutcome::IgnoreStale),
        r.current_generation == r.connection_generation ==> ((spec_connect_outcome(r) is Ready) <==> (
        r.connected && r.attached)),
        spec_connect_outcome(r) matches ConnectOutcome::Ready { auto_analysis, start_pending_analysis, play_pending_move }
            ==> auto_analysis == (r.analysis_role && r.analysis_enabled) && start_pending_analysis
            == r.pending_analysis_matches && play_pending_move == r.pending_move_matches,
{
}

/// A bounded result is applied only for the current, not cancelled run that
/// succeeded; a cancelled run always stops its session.
pub proof fn law_bounded_results_apply_only_to_the_current_run(should_dispose: bool, is_current: bool, succeeded: bool)
    ensures
        (spec_bounded_result(should_dispose, is_current, succeeded) == BoundedResultAction::ApplyAndComplete)
            <==> (!should_dispose && is_current && succeeded),
        should_dispose ==> spec_bounded_result(should_dispose, is_current, succeeded)
            == BoundedResultAction::StopAndDiscard,
{
}

/// A streamed line reaches the visit target exactly when a limit is set and
/// its best entry has at least that many visits; header and blank lines are
/// skipped.
pub proof fn law_stream_stops_at_the_visit_target(
    blank_or_header: bool,
    kata_analyze: bool,
    json_record: bool,
    has_final_entry: bool,
    max_visits: u64,
    best_visits: u64,
)
    ensures
        blank_or_header ==> spec_stream_line(blank_or_header, kata_analyze, json_record, has_final_entry, max_visits, best_visits)
            == StreamLineAction::Skip,
        !blank_or_header && !(kata_analyze && json_record && has_final_entry) ==> spec_stream_line(
            blank_or_header,
            kata_analyze,
            json_record,
            has_final_entry,
            max_visits,
            best_visits,
        ) == (StreamLineAction::Entries { target_reached: max_visits > 0 && best_visits >= max_visits }),
{
}

/// A console command is sent only when the draft is not blank, the role is
/// not streaming, it is not waiting to be connected and no command of it is
/// pending.
pub proof fn law_console_commands_need_an_idle_engine(
    draft: Seq<char>,
    attached: bool,
    configured: bool,
    busy: bool,
    streaming: bool,
)
    ensures
        (spec_engine_command_action(draft, attached, configured, busy, streaming)
            == EngineCommandAction::Send) <==> (!is_blank(draft) && !streaming && !(!attached
            && configured) && !busy),
        is_blank(draft) ==> spec_engine_command_action(draft, attached, configured, busy, streaming)
            == EngineCommandAction::Ignore,
{
}

/// The words of a line are its maximal runs of non-white-space characters:
/// each word is non-empty and holds no white space, and the words, in order,
/// are the line's characters with the white space left out.
pub proof fn law_words_are_the_non_blank_runs(s: Seq<char>)
    ensures
        forall|i: int| 0 <= i < words(s).len() ==> #[trigger] words(s)[i].len() > 0,
        forall|i: int, j: int|
            0 <= i < words(s).len() && 0 <= j < words(s)[i].len() ==> !is_white_space(
                #[trigger] words(s)[i][j],
            ),
        flatten_words(words(s)) == s.filter(non_blank_char()),
    decreases s.len(),
{
    lemma_words_state(s);
    let (done, cur) = words_state(s);
    if cur.len() > 0 {
        assert(flatten_words(done.push(cur)) =~= flatten_words(done) + cur) by {
            assert(done.push(cur).drop_last() =~= done);
        }
    }
}

/// Holds of characters that are not white space.
pub open spec fn non_blank_char() -> spec_fn(char) -> bool {
    |c: char| !is_white_space(c)
}

/// The characters of the words, one after another.
pub open spec fn flatten_words(ws: Seq<Seq<char>>) -> Seq<char>
    decreases ws.len(),
{
    if ws.len() == 0 {
        Seq::empty()
    } else {
        flatten_words(ws.drop_last()) + ws.last()
    }
}

proof fn lemma_words_state(s: Seq<char>)
    ensures
        forall|i: int| 0 <= i < words_state(s).0.len() ==> #[trigger] words_state(s).0[i].len() > 0,
        forall|i: int, j: int|
            0 <= i < words_state(s).0.len() && 0 <= j < words_state(s).0[i].len() ==> !is_white_space(
                #[trigger] words_state(s).0[i][j],
            ),
        forall|j: int| 0 <= j < words_state(s).1.len() ==> !is_white_space(#[trigger] words_state(s).1[j]),
        flatten_words(words_state(s).0) + words_state(s).1 == s.filter(non_blank_char()),
    decreases s.len(),
{
    if s.len() > 0 {
        let d = s.drop_last();
        lemma_words_state(d);
        let (done, cur) = words_state(d);
        let c = s.last();
        assert(s.filter(non_blank_char()) == if is_white_space(c) {
            d.filter(non_blank_char())
        } else {
            d.filter(non_blank_char()).push(c)
        }) by {
            reveal(Seq::filter);
        }
        if is_white_space(c) {
            if cur.len() > 0 {
                assert(done.push(cur).drop_last() =~= done);
                assert(flatten_words(done.push(cur)) + Seq::<char>::empty() =~= flatten_words(done) + cur);
                assert forall|i: int| 0 <= i < done.push(cur).len() implies #[trigger] done.push(cur)[i].len() > 0 by {
                    if i < done.len() {
                        assert(done.push(cur)[i] == done[i]);
                    }
                }
                assert forall|i: int, j: int|
                    0 <= i < done.push(cur).len() && 0 <= j < done.push(cur)[i].len() implies !is_white_space(
                    #[trigger] done.push(cur)[i][j],
                ) by {
                    if i < done.len() {
                        assert(done.push(cur)[i] == done[i]);
                    }
                }
            } else {
                assert(flatten_words(done) + Seq::<char>::empty() =~= flatten_words(done) + cur);
            }
        } else {
            assert(flatten_words(done) + cur.push(c) =~= (flatten_words(done) + cur).push(c));
        }
    }
}

/// A review comment keeps a non-blank existing comment in front, then the
/// `Ryusei Review` heading, then the annotation at the very end.
pub proof fn law_review_comment_keeps_the_existing_comment(existing: Option<Seq<char>>, annotation: Seq<char>)
    ensures
        ({
            let c = spec_review_comment(existing, annotation);
            &&& c.len() >= annotation.len()
            &&& c.subrange(c.len() - annotation.len(), c.len() as int) == annotation
            &&& (existing matches Some(e) ==> (!is_blank(e) ==> c.len() >= e.len() && c.subrange(0, e.len() as int) == e))
        }),
{
    let c = spec_review_comment(existing, annotation);
    let prefix = c.subrange(0, c.len() - annotation.len());
    match existing {
        Some(e) => {
            if !is_blank(e) {
                assert(c.subrange(0, e.len() as int) =~= e);
            }
        },
        None => {},
    }
    assert(c.subrange(c.len() - annotation.len(), c.len() as int) =~= annotation);
}

} // verus!
