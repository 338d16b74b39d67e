use ban_ahri_client::AHRI_ID;
use ban_ahri_client::client::champ_select_session::{
    Action, Bans, ChampSelectSession, Decision, Timer, decide,
};

fn action(actor_cell_id: i64, kind: &str, id: i64) -> Action {
    Action {
        actor_cell_id,
        champion_id: 0,
        completed: false,
        id,
        is_ally_action: true,
        is_in_progress: false,
        pick_turn: 1,
        type_field: kind.to_string(),
    }
}

fn session(
    phase: &str,
    local_cell: i64,
    my_bans: Vec<i32>,
    their_bans: Vec<i32>,
    actions: Vec<Vec<Action>>,
) -> ChampSelectSession {
    ChampSelectSession {
        actions,
        bans: Bans { my_team_bans: my_bans, num_bans: 10, their_team_bans: their_bans },
        game_id: 42,
        local_player_cell_id: local_cell,
        timer: Timer {
            adjusted_time_left_in_phase: 30000,
            internal_now_in_epoch_ms: 1000,
            is_infinite: false,
            phase: phase.to_string(),
            total_time_in_phase: 30000,
        },
    }
}

#[test]
fn not_actionable_outside_ban_phase() {
    // A matching ban action exists, but the phase is wrong.
    let s = session("FINALIZATION", 2, vec![], vec![], vec![vec![action(2, "ban", 7)]]);
    assert_eq!(decide(&s, AHRI_ID), Decision::NotActionable);
    let s = session("", 2, vec![], vec![], vec![vec![action(2, "ban", 7)]]);
    assert_eq!(decide(&s, AHRI_ID), Decision::NotActionable);
}

#[test]
fn already_banned_in_my_team_list() {
    let s = session("BAN_PICK", 2, vec![103], vec![], vec![vec![action(2, "ban", 7)]]);
    assert_eq!(decide(&s, 103), Decision::AlreadyBanned);
}

#[test]
fn already_banned_in_their_team_list() {
    // Even though a matching pending action exists, the banned set wins.
    let s = session("BAN_PICK", 2, vec![1, 2], vec![103], vec![vec![action(2, "ban", 7)]]);
    assert_eq!(decide(&s, 103), Decision::AlreadyBanned);
}

#[test]
fn acts_on_matching_ban_action() {
    let s = session("BAN_PICK", 2, vec![], vec![], vec![vec![action(2, "ban", 7)]]);
    assert_eq!(decide(&s, AHRI_ID), Decision::Act(7));
}

#[test]
fn no_matching_action_is_not_actionable() {
    // Wrong seat, wrong kind: no eligible slot yet.
    let rounds = vec![vec![action(1, "ban", 7), action(2, "pick", 8)]];
    let s = session("BAN_PICK", 2, vec![], vec![], rounds);
    assert_eq!(decide(&s, AHRI_ID), Decision::NotActionable);
}

#[test]
fn first_match_scans_rounds_in_order() {
    // Round 1 holds no match; round 2 holds two matches. The first match
    // of round 2 wins, not the one with the smaller id.
    let round1 = vec![action(1, "ban", 1), action(2, "pick", 2)];
    let round2 = vec![action(2, "ban", 9), action(2, "ban", 3)];
    let s = session("BAN_PICK", 2, vec![], vec![], vec![round1, round2]);
    assert_eq!(decide(&s, AHRI_ID), Decision::Act(9));
}

#[test]
fn first_match_within_round_is_list_order() {
    let round = vec![action(5, "ban", 4), action(2, "ban", 11), action(2, "ban", 6)];
    let s = session("BAN_PICK", 2, vec![], vec![], vec![round]);
    assert_eq!(decide(&s, AHRI_ID), Decision::Act(11));
}

#[test]
fn decide_twice_is_idempotent() {
    let round1 = vec![action(3, "pick", 1)];
    let round2 = vec![action(3, "ban", 5)];
    let s = session("BAN_PICK", 3, vec![], vec![], vec![round1, round2]);
    let first = decide(&s, AHRI_ID);
    let second = decide(&s, AHRI_ID);
    assert_eq!(first, second);
    assert_eq!(second, Decision::Act(5));
}
