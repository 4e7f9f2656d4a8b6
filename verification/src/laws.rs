//! Laws of the session state machine that relate whole runs of hot-path
//! actions, not single calls.

use vstd::prelude::*;

use crate::profile::{settled, PlayerProfile};
use crate::session::{action_points, action_step, GameSession, SessionAction};

verus! {

/// The session after a sequence of successful hot-path actions, applied
/// in order.
pub open spec fn apply_actions(s: GameSession, actions: Seq<SessionAction>) -> GameSession
    decreases actions.len(),
{
    if actions.len() == 0 {
        s
    } else {
        apply_actions(action_step(s, actions[0]), actions.drop_first())
    }
}

/// A score of `init` after absorbing each contribution in order with
/// saturating addition.
pub open spec fn sat_score_sum(init: u64, points: Seq<u64>) -> u64
    decreases points.len(),
{
    if points.len() == 0 {
        init
    } else {
        sat_score_sum(init.saturating_add(points[0]), points.drop_first())
    }
}

/// After any sequence of hot-path actions, the session's score is
/// exactly the saturating sum, in call order, of each action's
/// contribution: 1 per block, `damage / 2` per attack, `score_reward`
/// per kill.
pub proof fn lemma_score_is_saturating_sum(s: GameSession, actions: Seq<SessionAction>)
    ensures
        apply_actions(s, actions).score == sat_score_sum(
            s.score,
            actions.map_values(|a: SessionAction| action_points(a)),
        ),
    decreases actions.len(),
{
    let points = actions.map_values(|a: SessionAction| action_points(a));
    if actions.len() == 0 {
    } else {
        let stepped = action_step(s, actions[0]);
        assert(stepped.score == s.score.saturating_add(action_points(actions[0])));
        lemma_score_is_saturating_sum(stepped, actions.drop_first());
        assert(actions.drop_first().map_values(|a: SessionAction| action_points(a))
            =~= points.drop_first());
    }
}

/// However long a run of hot-path actions, the session keeps its
/// identity and only accumulates: owner, realm, the active flag and
/// custody are untouched, and every counter is non-decreasing.
pub proof fn lemma_actions_preserve_identity(s: GameSession, actions: Seq<SessionAction>)
    ensures
        apply_actions(s, actions).authority == s.authority,
        apply_actions(s, actions).realm == s.realm,
        apply_actions(s, actions).active == s.active,
        apply_actions(s, actions).delegated == s.delegated,
        apply_actions(s, actions).blocks_placed >= s.blocks_placed,
        apply_actions(s, actions).attacks >= s.attacks,
        apply_actions(s, actions).kills >= s.kills,
        apply_actions(s, actions).score >= s.score,
    decreases actions.len(),
{
    if actions.len() > 0 {
        lemma_actions_preserve_identity(action_step(s, actions[0]), actions.drop_first());
    }
}

/// Settlement only adds: every lifetime total of the settled profile is
/// at least what it was, the game count grows (saturating), and the
/// owner is untouched.
pub proof fn lemma_settled_monotone(p: PlayerProfile, s: GameSession)
    ensures
        settled(p, s).authority == p.authority,
        settled(p, s).total_blocks_placed >= p.total_blocks_placed,
        settled(p, s).total_attacks >= p.total_attacks,
        settled(p, s).total_kills >= p.total_kills,
        settled(p, s).total_score >= p.total_score,
        settled(p, s).games_played >= p.games_played,
{
}

/// Two hot-path actions commute: applying them to a session in either
/// order produces the same session — addition is commutative, and
/// saturation clamps to the same ceiling either way.
pub proof fn lemma_action_steps_commute(s: GameSession, a: SessionAction, b: SessionAction)
    ensures
        action_step(action_step(s, a), b) == action_step(action_step(s, b), a),
{
}

/// Swapping two adjacent actions anywhere in a run leaves the final
/// session unchanged; since every reordering is a chain of adjacent
/// swaps, reordering a run of hot-path actions cannot change what it
/// accumulates.
pub proof fn lemma_apply_actions_swap_adjacent(s: GameSession, actions: Seq<SessionAction>, i: int)
    requires
        0 <= i,
        i + 1 < actions.len(),
    ensures
        apply_actions(s, actions.update(i, actions[i + 1]).update(i + 1, actions[i]))
            == apply_actions(s, actions),
    decreases i,
{
    let swapped = actions.update(i, actions[i + 1]).update(i + 1, actions[i]);
    if i == 0 {
        lemma_action_steps_commute(s, actions[0], actions[1]);
        assert(swapped.drop_first().drop_first() =~= actions.drop_first().drop_first());
        assert(swapped[0] == actions[1] && swapped.drop_first()[0] == actions[0]);
        assert(apply_actions(s, swapped) == apply_actions(
            action_step(s, actions[1]),
            swapped.drop_first(),
        ));
        assert(apply_actions(action_step(s, actions[1]), swapped.drop_first()) == apply_actions(
            action_step(action_step(s, actions[1]), actions[0]),
            swapped.drop_first().drop_first(),
        ));
        assert(actions.drop_first()[0] == actions[1]);
        assert(apply_actions(s, actions) == apply_actions(
            action_step(s, actions[0]),
            actions.drop_first(),
        ));
        assert(apply_actions(action_step(s, actions[0]), actions.drop_first()) == apply_actions(
            action_step(action_step(s, actions[0]), actions[1]),
            actions.drop_first().drop_first(),
        ));
    } else {
        let tail = actions.drop_first();
        lemma_apply_actions_swap_adjacent(action_step(s, actions[0]), tail, i - 1);
        assert(swapped.drop_first() =~= tail.update(i - 1, tail[i]).update(i, tail[i - 1]));
        assert(swapped[0] == actions[0]);
    }
}

} // verus!
