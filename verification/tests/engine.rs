use ryusei_gpui::engine::{
    engine_command_action, parse_engine_command_line, review_comment, EngineCommandAction, EngineRole,
    PendingAnalysisRequest, PendingEngineMove,
};
use ryusei_gpui::engine::{analysis_finished_action, FinishedAction, RunOutcome};
use ryusei_gpui::board::Color;
use ryusei_gpui::engine::{
    analysis_player, analysis_start_action, analysis_visit_limit, bounded_result_action,
    bump_generation, connect_outcome, count_stones, drain_line_action, engine_connect_action,
    genmove_result_action, genmove_start_action, gtp_color, katago_setup_plan,
    plugin_command_route, should_flush_batch, stream_end_action, stream_line_action,
    AnalysisRefusal, AnalysisRequest, AnalysisStartAction, BoundedResultAction, BuiltinCommand,
    ConnectAction, ConnectOutcome, ConnectRefusal, ConnectReport, ConnectRequest,
    DrainLineAction, GenmoveResult, GenmoveStart, KataGoSetupOutcome, ModelTier, PluginRoute,
    PluginRuntime, StreamEndAction, StreamLineAction,
};

fn ready_request() -> AnalysisRequest {
    AnalysisRequest {
        locked_off: false,
        background_review: false,
        task_running: false,
        attached: true,
        engine_named: true,
        streaming: false,
        ready: true,
        bounded_command: false,
        role_generation: 4,
        profile_visits: None,
        setting_visits: None,
    }
}

#[test]
fn analysis_streams_with_the_default_visit_limit() {
    assert_eq!(
        analysis_start_action(ready_request()),
        AnalysisStartAction::Stream { max_visits: 500 }
    );
}

#[test]
fn visit_limit_prefers_the_review_profile_then_the_setting() {
    assert_eq!(analysis_visit_limit(Some(80), Some(1000)), 80);
    assert_eq!(analysis_visit_limit(None, Some(1000)), 1000);
    assert_eq!(analysis_visit_limit(None, None), 500);
}

#[test]
fn analysis_refusals_follow_the_checks_in_order() {
    let mut request = ready_request();
    request.locked_off = true;
    request.task_running = true;
    assert_eq!(
        analysis_start_action(request),
        AnalysisStartAction::Refuse(AnalysisRefusal::LockedForCompetition)
    );
    request.background_review = true;
    assert_eq!(
        analysis_start_action(request),
        AnalysisStartAction::Refuse(AnalysisRefusal::AlreadyRunning)
    );
    let mut request = ready_request();
    request.streaming = true;
    assert_eq!(
        analysis_start_action(request),
        AnalysisStartAction::Refuse(AnalysisRefusal::AlreadyStreaming)
    );
    let mut request = ready_request();
    request.ready = false;
    assert_eq!(
        analysis_start_action(request),
        AnalysisStartAction::Refuse(AnalysisRefusal::EngineBusy)
    );
    request.bounded_command = true;
    assert_eq!(analysis_start_action(request), AnalysisStartAction::Bounded);
}

#[test]
fn a_detached_named_engine_is_connected_first() {
    let mut request = ready_request();
    request.attached = false;
    assert_eq!(
        analysis_start_action(request),
        AnalysisStartAction::ConnectFirst { role_generation: 5 }
    );
    request.engine_named = false;
    assert_eq!(
        analysis_start_action(request),
        AnalysisStartAction::Refuse(AnalysisRefusal::NoAnalysisEngine)
    );
    assert_eq!(bump_generation(u64::MAX), 0);
}

#[test]
fn trial_moves_hand_the_analysis_to_the_opponent() {
    assert_eq!(analysis_player(Color::Black, None), Color::Black);
    assert_eq!(analysis_player(Color::Black, Some(Color::Black)), Color::White);
}

#[test]
fn bounded_results_are_applied_only_for_the_current_run() {
    assert_eq!(bounded_result_action(true, true, true), BoundedResultAction::StopAndDiscard);
    assert_eq!(bounded_result_action(false, true, true), BoundedResultAction::ApplyAndComplete);
    assert_eq!(bounded_result_action(false, false, true), BoundedResultAction::DiscardLease);
    assert_eq!(bounded_result_action(false, true, false), BoundedResultAction::DiscardAndFail);
}

#[test]
fn streamed_lines_stop_at_the_visit_target() {
    assert_eq!(stream_line_action(true, true, false, false, 500, 0), StreamLineAction::Skip);
    assert_eq!(
        stream_line_action(false, true, false, false, 500, 499),
        StreamLineAction::Entries { target_reached: false }
    );
    assert_eq!(
        stream_line_action(false, true, false, false, 500, 500),
        StreamLineAction::Entries { target_reached: true }
    );
    assert_eq!(
        stream_line_action(false, false, false, false, 0, 10_000),
        StreamLineAction::Entries { target_reached: false }
    );
    assert_eq!(stream_line_action(false, true, true, true, 500, 3), StreamLineAction::Completed);
    assert_eq!(
        stream_line_action(false, false, true, true, 500, 3),
        StreamLineAction::Entries { target_reached: false }
    );
}

#[test]
fn draining_ends_at_the_blank_line_after_the_header() {
    assert_eq!(drain_line_action(false, false, true), DrainLineAction::Skip);
    assert_eq!(drain_line_action(false, true, false), DrainLineAction::Header);
    assert_eq!(drain_line_action(true, false, true), DrainLineAction::Done);
    assert_eq!(drain_line_action(true, false, false), DrainLineAction::Entries);
    assert!(should_flush_batch(120, 1));
    assert!(!should_flush_batch(119, 1));
    assert!(!should_flush_batch(500, 0));
    assert_eq!(stream_end_action(true, true), StreamEndAction::Cancel);
    assert_eq!(stream_end_action(false, true), StreamEndAction::Fail);
    assert_eq!(stream_end_action(false, false), StreamEndAction::ReturnSession);
}

#[test]
fn engine_connections_are_refused_or_get_a_new_generation() {
    let request = ConnectRequest {
        connecting: false,
        analysis_role: true,
        analysis_running: false,
        attached: false,
        record_found: true,
        record_valid: true,
        generation: 7,
    };
    assert_eq!(engine_connect_action(request), ConnectAction::Connect { generation: 8 });
    assert_eq!(
        engine_connect_action(ConnectRequest { analysis_running: true, ..request }),
        ConnectAction::Refuse(ConnectRefusal::StopAnalysisFirst)
    );
    assert_eq!(
        engine_connect_action(ConnectRequest { analysis_role: false, analysis_running: true, ..request }),
        ConnectAction::Connect { generation: 8 }
    );
    assert_eq!(
        engine_connect_action(ConnectRequest { connecting: true, attached: true, ..request }),
        ConnectAction::Refuse(ConnectRefusal::InProgress)
    );
    assert_eq!(
        engine_connect_action(ConnectRequest { attached: true, ..request }),
        ConnectAction::Refuse(ConnectRefusal::AlreadyAttached)
    );
    assert_eq!(
        engine_connect_action(ConnectRequest { record_found: false, ..request }),
        ConnectAction::Refuse(ConnectRefusal::NoEngineConfigured)
    );
    assert_eq!(
        engine_connect_action(ConnectRequest { record_valid: false, ..request }),
        ConnectAction::Refuse(ConnectRefusal::EngineCheckFailed)
    );
}

#[test]
fn stale_connections_never_touch_the_shell() {
    let report = ConnectReport {
        current_generation: 3,
        connection_generation: 3,
        connected: true,
        attached: true,
        analysis_role: true,
        analysis_enabled: true,
        pending_analysis_matches: true,
        pending_move_matches: false,
        pending_request_of_connection: true,
    };
    assert_eq!(
        connect_outcome(report),
        ConnectOutcome::Ready {
            auto_analysis: true,
            start_pending_analysis: true,
            play_pending_move: false
        }
    );
    assert_eq!(
        connect_outcome(ConnectReport { current_generation: 4, ..report }),
        ConnectOutcome::StopStaleSession
    );
    assert_eq!(
        connect_outcome(ConnectReport { current_generation: 4, connected: false, ..report }),
        ConnectOutcome::IgnoreStale
    );
    assert_eq!(
        connect_outcome(ConnectReport { attached: false, ..report }),
        ConnectOutcome::AttachFailed
    );
    assert_eq!(
        connect_outcome(ConnectReport { connected: false, ..report }),
        ConnectOutcome::Failed { drop_pending_request: true }
    );
}

#[test]
fn engine_moves_wait_for_the_clock_and_an_idle_engine() {
    assert_eq!(genmove_start_action(true, true, true), GenmoveStart::ClockExpired);
    assert_eq!(genmove_start_action(false, false, true), GenmoveStart::Busy);
    assert_eq!(genmove_start_action(false, false, false), GenmoveStart::Lease);
    assert_eq!(gtp_color(Color::White), "W");
    assert_eq!(genmove_result_action(false, true, true), GenmoveResult::DropStale);
    assert_eq!(genmove_result_action(true, false, true), GenmoveResult::Failed);
    assert_eq!(genmove_result_action(true, true, true), GenmoveResult::Play);
    assert_eq!(genmove_result_action(true, true, false), GenmoveResult::Rejected);
}

#[test]
fn plugin_commands_route_builtins_before_runtimes() {
    assert_eq!(
        plugin_command_route(Some(BuiltinCommand::KataGoDownload(ModelTier::Strongest)), Some(PluginRuntime::Wasm)),
        PluginRoute::Builtin(BuiltinCommand::KataGoDownload(ModelTier::Strongest))
    );
    assert_eq!(plugin_command_route(None, None), PluginRoute::NotInstalled);
    assert_eq!(plugin_command_route(None, Some(PluginRuntime::Wasm)), PluginRoute::Wasm);
    assert_eq!(plugin_command_route(None, Some(PluginRuntime::Declarative)), PluginRoute::Declarative);
}

#[test]
fn katago_setup_fills_unassigned_roles_and_picks_the_message() {
    let plan = katago_setup_plan(None, true, false, true, true, true);
    assert!(plan.enable_human_sl);
    assert!(plan.assign_analysis);
    assert!(!plan.assign_white);
    assert_eq!(plan.outcome, KataGoSetupOutcome::ConnectAndAnalyze);
    let plan = katago_setup_plan(Some(false), true, true, false, true, false);
    assert!(!plan.enable_human_sl);
    assert_eq!(plan.outcome, KataGoSetupOutcome::NeedsModel);
    assert_eq!(
        katago_setup_plan(None, false, true, true, false, true).outcome,
        KataGoSetupOutcome::NeedsExecutable
    );
}

#[test]
fn position_check_counts_stones_of_each_color() {
    let sign_map = vec![vec![1, 0, -1], vec![1, 1, 0], vec![-1, 0, 0]];
    assert_eq!(count_stones(&sign_map), (3, 2));
    assert_eq!(count_stones(&Vec::new()), (0, 0));
}

#[test]
fn finished_runs_drive_the_whole_game_review() {
    assert_eq!(
        analysis_finished_action(false, RunOutcome::Completed, false, true, true, true),
        FinishedAction::Stale
    );
    assert_eq!(
        analysis_finished_action(true, RunOutcome::Completed, false, true, true, true),
        FinishedAction::ReviewNext
    );
    assert_eq!(
        analysis_finished_action(true, RunOutcome::Completed, false, true, true, false),
        FinishedAction::ReviewEnded { outcome: RunOutcome::Completed }
    );
    assert_eq!(
        analysis_finished_action(true, RunOutcome::Completed, false, false, true, true),
        FinishedAction::ReviewEnded { outcome: RunOutcome::Failed }
    );
    assert_eq!(
        analysis_finished_action(true, RunOutcome::Completed, true, false, false, false),
        FinishedAction::Report { outcome: RunOutcome::Completed, trial: true }
    );
    assert_eq!(
        analysis_finished_action(true, RunOutcome::Cancelled, false, false, false, false),
        FinishedAction::Report { outcome: RunOutcome::Cancelled, trial: false }
    );
}

#[test]
fn pending_request_requires_matching_role_generation_and_node() {
    let request = PendingAnalysisRequest {
        role: EngineRole::Analysis,
        role_generation: 7,
        node_id: "node-a".to_owned(),
    };
    assert!(request.matches(EngineRole::Analysis, 7, "node-a"));
    assert!(!request.matches(EngineRole::White, 7, "node-a"));
    assert!(!request.matches(EngineRole::Analysis, 8, "node-a"));
    assert!(!request.matches(EngineRole::Analysis, 7, "node-b"));
}

#[test]
fn pending_moves_require_matching_role_generation_and_color() {
    let pending = PendingEngineMove {
        role: EngineRole::White,
        role_generation: 2,
        color: Color::White,
    };
    assert!(pending.matches(EngineRole::White, 2, Color::White));
    assert!(!pending.matches(EngineRole::Black, 2, Color::White));
    assert!(!pending.matches(EngineRole::White, 3, Color::White));
    assert!(!pending.matches(EngineRole::White, 2, Color::Black));
}

#[test]
fn console_commands_wait_for_an_idle_attached_engine() {
    assert_eq!(engine_command_action("  \t", true, true, false, false), EngineCommandAction::Ignore);
    assert_eq!(engine_command_action("name", true, true, true, true), EngineCommandAction::RefuseStreaming);
    assert_eq!(engine_command_action("name", false, true, true, false), EngineCommandAction::ConnectFirst);
    assert_eq!(engine_command_action("name", true, true, true, false), EngineCommandAction::Busy);
    assert_eq!(engine_command_action("name", true, true, false, false), EngineCommandAction::Send);
    assert_eq!(engine_command_action("name", false, false, false, false), EngineCommandAction::Send);
}

#[test]
fn console_lines_split_into_name_and_arguments() {
    assert_eq!(
        parse_engine_command_line("  kata-set-param \t maxVisits  500 "),
        (
            "kata-set-param".to_owned(),
            vec!["maxVisits".to_owned(), "500".to_owned()]
        )
    );
    assert_eq!(parse_engine_command_line("version"), ("version".to_owned(), Vec::new()));
    assert_eq!(parse_engine_command_line("   "), (String::new(), Vec::new()));
}

#[test]
fn review_comments_append_under_a_heading() {
    assert_eq!(review_comment(None, "B12 loses 8 points"), "Ryusei Review\nB12 loses 8 points");
    assert_eq!(review_comment(Some("  \n"), "x"), "Ryusei Review\nx");
    assert_eq!(
        review_comment(Some("Nice move"), "x"),
        "Nice move\n\nRyusei Review\nx"
    );
}
