//! Typed model of the draft-session resource and the decision algorithm
//! that picks the one pending ban action to act on.
use vstd::prelude::*;

use crate::errors::{AppError, AppResult, Precondition};

verus! {

/// Snapshot of the remote draft session, fetched whole on every poll.
#[derive(Clone, Debug)]
pub struct ChampSelectSession {
    pub actions: Vec<Vec<Action>>,
    pub bans: Bans,
    pub game_id: i64,
    pub local_player_cell_id: i64,
    pub timer: Timer,
}

/// A pending or completed draft action.
#[derive(Clone, Debug)]
pub struct Action {
    pub actor_cell_id: i64,
    pub champion_id: i64,
    pub completed: bool,
    pub id: i64,
    pub is_ally_action: bool,
    pub is_in_progress: bool,
    pub pick_turn: i64,
    pub type_field: String,
}

/// Bans already committed by each team.
#[derive(Clone, Debug)]
pub struct Bans {
    pub my_team_bans: Vec<i32>,
    pub num_bans: i64,
    pub their_team_bans: Vec<i32>,
}

/// Phase timer of the session; only the phase name matters to the decision.
#[derive(Clone, Debug)]
pub struct Timer {
    pub adjusted_time_left_in_phase: i64,
    pub internal_now_in_epoch_ms: i64,
    pub is_infinite: bool,
    pub phase: String,
    pub total_time_in_phase: i64,
}

/// Outcome of evaluating one session snapshot.
#[derive(Clone, Copy, Debug, PartialEq, Eq, Structural)]
pub enum Decision {
    /// Submit the ban through the action with this id.
    Act(i64),
    /// Nothing to do on this snapshot; poll again later.
    NotActionable,
    /// The target is already in a ban list; never act again.
    AlreadyBanned,
}

/// The session is in the one phase in which bans may be submitted.
pub open spec fn is_ban_phase(s: ChampSelectSession) -> bool {
    s.timer.phase@ == "BAN_PICK"@
}

/// The target champion already stands in either team's ban list.
pub open spec fn target_banned(s: ChampSelectSession, target: i32) -> bool {
    s.bans.my_team_bans@.contains(target) || s.bans.their_team_bans@.contains(target)
}

/// The action is a ban slot of the local player.
pub open spec fn action_matches(a: Action, cell: i64) -> bool {
    a.actor_cell_id == cell && a.type_field@ == "ban"@
}

/// First matching action of one round, in list order.
pub open spec fn first_match_in_round(round: Seq<Action>, cell: i64) -> Option<Action>
    decreases round.len(),
{
    if round.len() == 0 {
        None
    } else if action_matches(round[0], cell) {
        Some(round[0])
    } else {
        first_match_in_round(round.drop_first(), cell)
    }
}

/// First matching action over all rounds: rounds in order, and within a
/// round in list order.
pub open spec fn first_match(rounds: Seq<Vec<Action>>, cell: i64) -> Option<Action>
    decreases rounds.len(),
{
    if rounds.len() == 0 {
        None
    } else {
        match first_match_in_round(rounds[0]@, cell) {
            Some(a) => Some(a),
            None => first_match(rounds.drop_first(), cell),
        }
    }
}

/// The decision over one snapshot: not actionable outside the ban phase,
/// already banned when the target is in a ban list, otherwise the first
/// pending ban slot of the local player, if any.
pub open spec fn decide_spec(s: ChampSelectSession, target: i32) -> Decision {
    if !is_ban_phase(s) {
        Decision::NotActionable
    } else if target_banned(s, target) {
        Decision::AlreadyBanned
    } else {
        match first_match(s.actions@, s.local_player_cell_id) {
            Some(a) => Decision::Act(a.id),
            None => Decision::NotActionable,
        }
    }
}

fn contains_champion(v: &Vec<i32>, x: i32) -> (b: bool)
    ensures
        b == v@.contains(x),
{
    let n = v.len();
    let mut i: usize = 0;
    while i < n
        invariant
            n == v@.len(),
            i <= n,
            forall|k: int| 0 <= k < i ==> v@[k] != x,
        decreases n - i,
    {
        if v[i] == x {
            assert(v@.contains(x)) by {
                assert(v@[i as int] == x);
            }
            return true;
        }
        i = i + 1;
    }
    false
}

fn find_ban_action(round: &Vec<Action>, cell: i64) -> (r: Option<usize>)
    ensures
        match r {
            Some(j) => j < round@.len() && first_match_in_round(round@, cell) == Some(
                round@[j as int],
            ),
            None => first_match_in_round(round@, cell) is None,
        },
{
    let ban_kind = "ban".to_owned();
    let m = round.len();
    let mut j: usize = 0;
    proof {
        assert(round@.skip(0) =~= round@);
    }
    while j < m
        invariant
            m == round@.len(),
            j <= m,
            ban_kind@ == "ban"@,
            first_match_in_round(round@, cell) == first_match_in_round(
                round@.skip(j as int),
                cell,
            ),
        decreases m - j,
    {
        proof {
            assert(round@.skip(j as int)[0] == round@[j as int]);
            assert(round@.skip(j as int).drop_first() =~= round@.skip(j as int + 1));
        }
        if round[j].actor_cell_id == cell && round[j].type_field == ban_kind {
            return Some(j);
        }
        j = j + 1;
    }
    None
}

/// Decision algorithm over a draft-session snapshot. Outside the ban phase
/// nothing is actionable, whatever the other fields hold; a target already
/// present in either team's ban list is reported as already banned even if
/// a matching pending action exists; otherwise the first ban slot of the
/// local player is chosen, scanning rounds in order and each round in list
/// order.
pub fn decide(s: &ChampSelectSession, target: i32) -> (d: Decision)
    ensures
        d == decide_spec(*s, target),
        !is_ban_phase(*s) ==> d == Decision::NotActionable,
        is_ban_phase(*s) && target_banned(*s, target) ==> d == Decision::AlreadyBanned,
{
    let ban_phase = "BAN_PICK".to_owned();
    if !(s.timer.phase == ban_phase) {
        return Decision::NotActionable;
    }
    if contains_champion(&s.bans.my_team_bans, target) || contains_champion(
        &s.bans.their_team_bans,
        target,
    ) {
        return Decision::AlreadyBanned;
    }
    let cell = s.local_player_cell_id;
    let n = s.actions.len();
    let mut i: usize = 0;
    proof {
        assert(s.actions@.skip(0) =~= s.actions@);
    }
    while i < n
        invariant
            n == s.actions@.len(),
            i <= n,
            cell == s.local_player_cell_id,
            is_ban_phase(*s),
            !target_banned(*s, target),
            first_match(s.actions@, cell) == first_match(s.actions@.skip(i as int), cell),
        decreases n - i,
    {
        proof {
            assert(s.actions@.skip(i as int)[0] == s.actions@[i as int]);
            assert(s.actions@.skip(i as int).drop_first() =~= s.actions@.skip(i as int + 1));
        }
        match find_ban_action(&s.actions[i], cell) {
            Some(j) => {
                let id = s.actions[i][j].id;
                return Decision::Act(id);
            },
            None => {},
        }
        i = i + 1;
    }
    assert(s.actions@.skip(n as int) =~= Seq::<Vec<Action>>::empty());
    Decision::NotActionable
}

/// One-shot variant of the decision: the action id to act on, or a
/// precondition error naming exactly what failed.
pub fn ban_once_decision(s: &ChampSelectSession, target: i32) -> (r: AppResult<i64>)
    ensures
        match r {
            Ok(id) => decide_spec(*s, target) == Decision::Act(id),
            Err(e) => match e {
                AppError::PreconditionError(p) => {
                    &&& (p is NotInBanPhase <==> !is_ban_phase(*s))
                    &&& (p is AlreadyBanned <==> is_ban_phase(*s) && target_banned(*s, target))
                    &&& (p is NoBanActionFound <==> is_ban_phase(*s) && !target_banned(*s, target)
                        && first_match(s.actions@, s.local_player_cell_id) is None)
                },
                _ => false,
            },
        },
        (r is Ok) <==> (decide_spec(*s, target) matches Decision::Act(_)),
{
    match decide(s, target) {
        Decision::Act(id) => Ok(id),
        Decision::AlreadyBanned => Err(AppError::PreconditionError(Precondition::AlreadyBanned)),
        Decision::NotActionable => {
            let ban_phase = "BAN_PICK".to_owned();
            if s.timer.phase == ban_phase {
                Err(AppError::PreconditionError(Precondition::NoBanActionFound))
            } else {
                Err(AppError::PreconditionError(Precondition::NotInBanPhase))
            }
        },
    }
}

/// Position of the first matching action within one round, in list order;
/// the round's length when none matches.
pub open spec fn first_match_pos(round: Seq<Action>, cell: i64) -> int
    decreases round.len(),
{
    if round.len() == 0 {
        0
    } else if action_matches(round[0], cell) {
        0
    } else {
        1 + first_match_pos(round.drop_first(), cell)
    }
}

/// Index of the first round holding a matching action; the number of
/// rounds when none does.
pub open spec fn first_match_round(rounds: Seq<Vec<Action>>, cell: i64) -> int
    decreases rounds.len(),
{
    if rounds.len() == 0 {
        0
    } else if first_match_in_round(rounds[0]@, cell) is Some {
        0
    } else {
        1 + first_match_round(rounds.drop_first(), cell)
    }
}

/// Law: within a round the chosen action is the first match in list
/// order: no action before it matches, the action at the position
/// matches, and exactly that action is returned; when no action of the
/// round matches, nothing is returned.
pub proof fn lemma_first_match_in_round_order(round: Seq<Action>, cell: i64)
    ensures
        0 <= first_match_pos(round, cell) <= round.len(),
        forall|j: int|
            0 <= j < first_match_pos(round, cell) ==> !action_matches(#[trigger] round[j], cell),
        first_match_pos(round, cell) == round.len() ==> first_match_in_round(round, cell) is None,
        first_match_pos(round, cell) < round.len() ==> action_matches(
            round[first_match_pos(round, cell)],
            cell,
        ) && first_match_in_round(round, cell) == Some(round[first_match_pos(round, cell)]),
    decreases round.len(),
{
    if round.len() == 0 {
    } else if action_matches(round[0], cell) {
    } else {
        let u = round.drop_first();
        lemma_first_match_in_round_order(u, cell);
        assert(forall|j: int| 1 <= j < round.len() ==> #[trigger] round[j] == u[j - 1]);
    }
}

/// Law: over a whole session the chosen action is the first match in
/// round-major order: every earlier round holds no matching action, and
/// the match comes from the first round that holds one; when no round
/// holds a match, nothing is returned.
pub proof fn lemma_first_match_round_major(rounds: Seq<Vec<Action>>, cell: i64)
    ensures
        0 <= first_match_round(rounds, cell) <= rounds.len(),
        forall|i: int|
            0 <= i < first_match_round(rounds, cell) ==> first_match_in_round(
                #[trigger] rounds[i]@,
                cell,
            ) is None,
        first_match_round(rounds, cell) == rounds.len() ==> first_match(rounds, cell) is None,
        first_match_round(rounds, cell) < rounds.len() ==> first_match(rounds, cell)
            == first_match_in_round(rounds[first_match_round(rounds, cell)]@, cell) && first_match(
            rounds,
            cell,
        ) is Some,
    decreases rounds.len(),
{
    if rounds.len() == 0 {
    } else if first_match_in_round(rounds[0]@, cell) is Some {
    } else {
        let u = rounds.drop_first();
        lemma_first_match_round_major(u, cell);
        assert(forall|i: int| 1 <= i < rounds.len() ==> #[trigger] rounds[i] == u[i - 1]);
    }
}

/// Law: in the ban phase with the target not yet banned, the decision is
/// exactly the id of the round-major first matching action — the action
/// at the first matching position of the first round that holds a match —
/// and nothing is actionable when no round holds one.
pub proof fn lemma_decide_picks_first_match(s: ChampSelectSession, target: i32)
    requires
        is_ban_phase(s),
        !target_banned(s, target),
    ensures
        ({
            let rounds = s.actions@;
            let cell = s.local_player_cell_id;
            let ri = first_match_round(rounds, cell);
            &&& (ri == rounds.len() ==> decide_spec(s, target) == Decision::NotActionable)
            &&& (ri < rounds.len() ==> {
                let round = rounds[ri]@;
                let pj = first_match_pos(round, cell);
                pj < round.len() && decide_spec(s, target) == Decision::Act(round[pj].id)
            })
        }),
{
    let rounds = s.actions@;
    let cell = s.local_player_cell_id;
    lemma_first_match_round_major(rounds, cell);
    if first_match_round(rounds, cell) < rounds.len() {
        lemma_first_match_in_round_order(rounds[first_match_round(rounds, cell)]@, cell);
    }
}

/// Law: the decision is a pure function of the session snapshot. Two
/// decisions computed from the same unchanged session are equal; nothing
/// is mutated between the calls.
pub proof fn lemma_decide_idempotent(
    s: ChampSelectSession,
    target: i32,
    d1: Decision,
    d2: Decision,
)
    requires
        d1 == decide_spec(s, target),
        d2 == decide_spec(s, target),
    ensures
        d1 == d2,
{
}

} // verus!
