use ban_ahri_client::AHRI_ID;
use ban_ahri_client::client::champ_select_session::{
    Action, Bans, ChampSelectSession, Timer, ban_once_decision,
};
use ban_ahri_client::client::{LolClient, check_riot_path};
use ban_ahri_client::errors::{AppError, Precondition};
use ban_ahri_client::lockfile::parse_lockfile;
use ban_ahri_client::poller::{PollerState, StopSignal, TickAction, TickObservation, clamp_interval};

fn ban_action(actor_cell_id: i64, id: i64) -> Action {
    Action {
        actor_cell_id,
        champion_id: 0,
        completed: false,
        id,
        is_ally_action: true,
        is_in_progress: true,
        pick_turn: 1,
        type_field: "ban".to_string(),
    }
}

fn draft_session(their_bans: Vec<i32>) -> ChampSelectSession {
    ChampSelectSession {
        actions: vec![vec![ban_action(4, 55)]],
        bans: Bans { my_team_bans: vec![], num_bans: 10, their_team_bans: their_bans },
        game_id: 42,
        local_player_cell_id: 4,
        timer: Timer {
            adjusted_time_left_in_phase: 30000,
            internal_now_in_epoch_ms: 1000,
            is_infinite: false,
            phase: "BAN_PICK".to_string(),
            total_time_in_phase: 30000,
        },
    }
}

#[test]
fn stop_signal_is_consumed_at_most_once() {
    let mut s = StopSignal::new();
    assert!(!s.try_consume());
    s.send();
    assert!(s.try_consume());
    assert!(!s.try_consume());
}

#[test]
fn stop_after_loop_exit_is_a_noop() {
    let mut s = StopSignal::new();
    s.send();
    assert!(s.try_consume());
    // The loop has exited; a late stop request still goes through without
    // an error and without blocking.
    s.send();
    s.send();
    assert!(s.try_consume());
}

#[test]
fn stop_request_exits_the_loop() {
    let (state, action) = PollerState::Disconnected.step(TickObservation::StopRequested, AHRI_ID);
    assert_eq!(action, TickAction::Exit);
    assert!(matches!(state, PollerState::Disconnected));
}

#[test]
fn connect_failure_stays_disconnected() {
    let (state, action) = PollerState::Disconnected.step(TickObservation::ConnectFailed, AHRI_ID);
    assert_eq!(action, TickAction::Wait);
    assert!(matches!(state, PollerState::Disconnected));
}

#[test]
fn liveness_failure_drops_the_client() {
    let client = LolClient { port: "61234".to_string(), auth_header: "Basic x".to_string() };
    let (state, action) =
        PollerState::Connected(client).step(TickObservation::LivenessFailed, AHRI_ID);
    assert_eq!(action, TickAction::Wait);
    assert!(matches!(state, PollerState::Disconnected));
}

#[test]
fn fetched_session_triggers_one_ban() {
    let client = LolClient { port: "61234".to_string(), auth_header: "Basic x".to_string() };
    let (state, action) = PollerState::Connected(client)
        .step(TickObservation::SessionFetched(draft_session(vec![])), AHRI_ID);
    assert_eq!(action, TickAction::SubmitBan { action_id: 55, champion_id: AHRI_ID });
    assert!(matches!(state, PollerState::Connected(_)));
}

#[test]
fn banned_target_is_never_resubmitted() {
    let client = LolClient { port: "61234".to_string(), auth_header: "Basic x".to_string() };
    let (_, action) = PollerState::Connected(client)
        .step(TickObservation::SessionFetched(draft_session(vec![AHRI_ID])), AHRI_ID);
    assert_eq!(action, TickAction::Wait);
}

#[test]
fn end_to_end_ban_request() {
    // Lockfile to PATCH request: discover, connect, fetch, decide, act.
    let d = parse_lockfile("LeagueClient:999:61234:abc123:https").unwrap();
    let client = LolClient::new(&d);
    let session = draft_session(vec![]);
    let action_id = ban_once_decision(&session, AHRI_ID).unwrap();
    assert_eq!(action_id, 55);
    assert_eq!(
        client.ban_url(action_id),
        "https://127.0.0.1:61234/lol-champ-select/v1/session/actions/55"
    );
    assert_eq!(LolClient::ban_body(AHRI_ID), "{\"championId\":103,\"completed\":true}");
    assert_eq!(client.auth_header, "Basic cmlvdDphYmMxMjM=");
}

#[test]
fn end_to_end_already_banned_issues_nothing() {
    let d = parse_lockfile("LeagueClient:999:61234:abc123:https").unwrap();
    let _client = LolClient::new(&d);
    let session = draft_session(vec![AHRI_ID]);
    let r = ban_once_decision(&session, AHRI_ID);
    match r {
        Err(AppError::PreconditionError(p)) => {
            assert_eq!(p, Precondition::AlreadyBanned);
            assert_eq!(p.describe(), "already banned");
        },
        _ => panic!("expected a precondition error"),
    }
}

#[test]
fn ban_once_names_the_failed_precondition() {
    let mut session = draft_session(vec![]);
    session.timer.phase = "PLANNING".to_string();
    match ban_once_decision(&session, AHRI_ID) {
        Err(AppError::PreconditionError(p)) => assert_eq!(p.describe(), "not in ban phase"),
        _ => panic!("expected a precondition error"),
    }
    let mut session = draft_session(vec![]);
    session.actions = vec![vec![]];
    match ban_once_decision(&session, AHRI_ID) {
        Err(AppError::PreconditionError(p)) => assert_eq!(p.describe(), "no ban action found"),
        _ => panic!("expected a precondition error"),
    }
}

#[test]
fn interval_is_clamped_to_one_millisecond() {
    assert_eq!(clamp_interval(0), 1);
    assert_eq!(clamp_interval(1), 1);
    assert_eq!(clamp_interval(1400), 1400);
}

#[test]
fn missing_install_root_is_detected() {
    assert!(!check_riot_path("/nonexistent-install-root".to_string()));
}
