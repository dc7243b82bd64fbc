use vstd::prelude::*;

use crate::game::{
    after_attach, after_join, after_move, after_ready, both_occupied, both_ready, fresh_game, game_wf,
    is_ready, join_result, occupied, ready_signal, Coord, GameView, JoinError, Lifecycle,
};
use crate::slot::Slot;
use crate::store::position_of;
use crate::tick::{after_step, StepResult};

verus! {

/// A fresh game after `n` joins.
pub open spec fn joined(n: nat) -> GameView
    decreases n,
{
    if n == 0 {
        fresh_game()
    } else {
        after_join(joined((n - 1) as nat))
    }
}

/// On a fresh game, the first join gets the left slot, the second the right
/// slot, and every later one fails with `SessionFull`; the game stays well
/// formed throughout.
pub proof fn law_join_sequence(n: nat)
    ensures
        game_wf(joined(n)),
        join_result(joined(n)) == if n == 0 {
            Ok::<Slot, JoinError>(Slot::Left)
        } else if n == 1 {
            Ok::<Slot, JoinError>(Slot::Right)
        } else {
            Err::<Slot, JoinError>(JoinError::SessionFull)
        },
    decreases n,
{
    if n > 0 {
        law_join_sequence((n - 1) as nat);
    }
    if n >= 2 {
        assert(both_occupied(joined(n)));
    }
}

/// Both players are ready only where both slots are occupied and both flags
/// are set; so never on a fresh game, nor on one with a single occupant.
pub proof fn law_both_ready_needs_both(g: GameView)
    ensures
        both_ready(g) <==> (occupied(g, Slot::Left) && is_ready(g, Slot::Left) && occupied(
            g,
            Slot::Right,
        ) && is_ready(g, Slot::Right)),
        !both_occupied(g) ==> !both_ready(g),
        !both_ready(fresh_game()),
        !both_ready(joined(1)),
{
    assert(joined(1) == after_join(joined(0)));
}

/// The game after a run of readies, from the slots in `calls`, in order.
pub open spec fn after_readies(g: GameView, calls: Seq<Slot>) -> GameView
    decreases calls.len(),
{
    if calls.len() == 0 {
        g
    } else {
        after_readies(after_ready(g, calls[0]), calls.drop_first())
    }
}

/// How many readies of the run return the both-ready signal.
pub open spec fn signals(g: GameView, calls: Seq<Slot>) -> nat
    decreases calls.len(),
{
    if calls.len() == 0 {
        0
    } else {
        (if ready_signal(g, calls[0]) {
            1nat
        } else {
            0nat
        }) + signals(after_ready(g, calls[0]), calls.drop_first())
    }
}

/// In any run of readies the both-ready signal fires exactly once if the run
/// takes the game from not both ready to both ready, and never otherwise.
/// Once both are ready they stay so, and a well-formed game stays well
/// formed.
pub proof fn law_ready_signal_once(g: GameView, calls: Seq<Slot>)
    ensures
        signals(g, calls) == if !both_ready(g) && both_ready(after_readies(g, calls)) {
            1nat
        } else {
            0nat
        },
        both_ready(g) ==> both_ready(after_readies(g, calls)),
        game_wf(g) ==> game_wf(after_readies(g, calls)),
    decreases calls.len(),
{
    if calls.len() > 0 {
        let c = calls[0];
        let h = after_ready(g, c);
        law_ready_signal_once(h, calls.drop_first());
        assert(after_readies(g, calls) == after_readies(h, calls.drop_first()));
        if both_ready(g) {
            assert(both_ready(h));
            assert(!ready_signal(g, c));
        } else if ready_signal(g, c) {
            assert(both_ready(h));
        } else {
            assert(!both_ready(h));
        }
    }
}

/// A move followed by a read of the same paddle, with no write between,
/// gives back the coordinate moved to.
pub proof fn law_move_then_read(m: Map<Seq<char>, GameView>, id: Seq<char>, slot: Slot, y: Coord)
    requires
        m.contains_key(id),
        occupied(m[id], slot),
    ensures
        position_of(m.insert(id, after_move(m[id], slot, y)), id, slot) == Some(y),
{
}

/// No operation empties a slot or takes an active game back: an occupied
/// slot stays occupied, so each slot is taken at most once, and an active
/// game stays active.
pub proof fn law_slots_and_activity_kept(
    g: GameView,
    s: Slot,
    t: Slot,
    y: Coord,
    step: StepResult,
)
    requires
        game_wf(g),
    ensures
        occupied(g, t) ==> {
            &&& occupied(after_join(g), t)
            &&& occupied(after_ready(g, s), t)
            &&& occupied(after_move(g, s, y), t)
            &&& occupied(after_attach(g, s), t)
            &&& occupied(after_step(g, step), t)
        },
        g.lifecycle == Lifecycle::Active ==> {
            &&& after_join(g).lifecycle == Lifecycle::Active
            &&& after_ready(g, s).lifecycle == Lifecycle::Active
            &&& after_move(g, s, y).lifecycle == Lifecycle::Active
            &&& after_attach(g, s).lifecycle == Lifecycle::Active
            &&& after_step(g, step).lifecycle == Lifecycle::Active
        },
{
}

} // verus!
