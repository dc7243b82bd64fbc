use vstd::prelude::*;

use crate::game::{
    after_attach, after_join, after_move, after_ready, fresh_game, game_wf, player_at,
    ready_signal, Coord, Game, GameView, JoinError, Lifecycle, Outbox,
};
use crate::slot::Slot;
use crate::tick::{after_step, apply_step, deliveries_of, paddles, scorer_of, StepResult, TickOutcome};

verus! {

/// Relies on uuid::Uuid::new_v4, formatted by its `Display`: a random
/// identifier, about which nothing is promised.
#[verifier::external_body]
fn random_id() -> (r: String) {
    uuid::Uuid::new_v4().to_string()
}

/// The games of the process, by identifier. Every read and change of a game
/// goes through one method call, so a caller that holds the store behind one
/// lock performs each of them atomically.
pub struct GameStore {
    games: Vec<Game>,
}

pub open spec fn has_id(s: Seq<Game>, k: Seq<char>) -> bool {
    exists|i: int| 0 <= i < s.len() && #[trigger] s[i].spec_id() == k
}

/// The games of a sequence keyed by identifier.
pub open spec fn games_map(s: Seq<Game>) -> Map<Seq<char>, GameView> {
    Map::new(
        |k: Seq<char>| has_id(s, k),
        |k: Seq<char>| s[choose|i: int| 0 <= i < s.len() && #[trigger] s[i].spec_id() == k]@,
    )
}

pub open spec fn unique_ids(s: Seq<Game>) -> bool {
    forall|i: int, j: int|
        0 <= i < s.len() && 0 <= j < s.len() && i != j ==> #[trigger] s[i].spec_id()
            != #[trigger] s[j].spec_id()
}

proof fn lemma_map_at(s: Seq<Game>, i: int)
    requires
        unique_ids(s),
        0 <= i < s.len(),
    ensures
        games_map(s).contains_key(s[i].spec_id()),
        games_map(s)[s[i].spec_id()] == s[i]@,
{
    let k = s[i].spec_id();
    assert(has_id(s, k));
    let j = choose|j: int| 0 <= j < s.len() && #[trigger] s[j].spec_id() == k;
    assert(j == i);
}

proof fn lemma_map_update(s: Seq<Game>, i: int, g: Game)
    requires
        unique_ids(s),
        0 <= i < s.len(),
        g.spec_id() == s[i].spec_id(),
    ensures
        unique_ids(s.update(i, g)),
        games_map(s.update(i, g)) == games_map(s).insert(s[i].spec_id(), g@),
{
    let t = s.update(i, g);
    assert(unique_ids(t)) by {
        assert forall|a: int, b: int|
            0 <= a < t.len() && 0 <= b < t.len() && a != b implies #[trigger] t[a].spec_id()
            != #[trigger] t[b].spec_id() by {
            assert(t[a].spec_id() == s[a].spec_id());
            assert(t[b].spec_id() == s[b].spec_id());
        }
    }
    let m1 = games_map(t);
    let m2 = games_map(s).insert(s[i].spec_id(), g@);
    assert forall|k: Seq<char>| m1.contains_key(k) <==> m2.contains_key(k) by {
        if has_id(s, k) {
            let j = choose|j: int| 0 <= j < s.len() && #[trigger] s[j].spec_id() == k;
            assert(t[j].spec_id() == k);
        }
        if has_id(t, k) {
            let j = choose|j: int| 0 <= j < t.len() && #[trigger] t[j].spec_id() == k;
            assert(s[j].spec_id() == k);
        }
    }
    assert forall|k: Seq<char>| #[trigger] m1.contains_key(k) implies m1[k] == m2[k] by {
        let j = choose|j: int| 0 <= j < t.len() && #[trigger] t[j].spec_id() == k;
        lemma_map_at(t, j);
        if j != i {
            lemma_map_at(s, j);
        }
    }
    assert(m1 =~= m2);
}

proof fn lemma_map_push(s: Seq<Game>, g: Game)
    requires
        unique_ids(s),
        !has_id(s, g.spec_id()),
    ensures
        unique_ids(s.push(g)),
        games_map(s.push(g)) == games_map(s).insert(g.spec_id(), g@),
{
    let t = s.push(g);
    assert(unique_ids(t)) by {
        assert forall|a: int, b: int|
            0 <= a < t.len() && 0 <= b < t.len() && a != b implies #[trigger] t[a].spec_id()
            != #[trigger] t[b].spec_id() by {
            if a < s.len() && b < s.len() {
                assert(t[a] == s[a] && t[b] == s[b]);
            } else if a < s.len() {
                assert(t[a] == s[a]);
            } else {
                assert(t[b] == s[b]);
            }
        }
    }
    let m1 = games_map(t);
    let m2 = games_map(s).insert(g.spec_id(), g@);
    assert forall|k: Seq<char>| m1.contains_key(k) <==> m2.contains_key(k) by {
        if has_id(s, k) {
            let j = choose|j: int| 0 <= j < s.len() && #[trigger] s[j].spec_id() == k;
            assert(t[j].spec_id() == k);
        }
        assert(t[s.len() as int].spec_id() == g.spec_id());
        if has_id(t, k) {
            let j = choose|j: int| 0 <= j < t.len() && #[trigger] t[j].spec_id() == k;
            if j < s.len() {
                assert(s[j].spec_id() == k);
            }
        }
    }
    assert forall|k: Seq<char>| #[trigger] m1.contains_key(k) implies m1[k] == m2[k] by {
        let j = choose|j: int| 0 <= j < t.len() && #[trigger] t[j].spec_id() == k;
        lemma_map_at(t, j);
        if j < s.len() {
            assert(t[j] == s[j]);
            lemma_map_at(s, j);
        }
    }
    assert(m1 =~= m2);
}

/// The game of a sequence with identifier `k`.
pub open spec fn game_at(s: Seq<Game>, k: Seq<char>) -> Game {
    s[choose|i: int| 0 <= i < s.len() && #[trigger] s[i].spec_id() == k]
}

/// The outbound queue attached to slot `t` of the game with identifier `k`.
pub open spec fn outbox_in(s: Seq<Game>, k: Seq<char>, t: Slot) -> Option<Outbox> {
    if has_id(s, k) {
        game_at(s, k).outbox(t)
    } else {
        None
    }
}

proof fn lemma_game_at(s: Seq<Game>, i: int)
    requires
        unique_ids(s),
        0 <= i < s.len(),
    ensures
        has_id(s, s[i].spec_id()),
        game_at(s, s[i].spec_id()) == s[i],
{
    let k = s[i].spec_id();
    assert(has_id(s, k));
    let j = choose|j: int| 0 <= j < s.len() && #[trigger] s[j].spec_id() == k;
    assert(j == i);
}

proof fn lemma_outbox_update(s: Seq<Game>, i: int, g: Game)
    requires
        unique_ids(s),
        0 <= i < s.len(),
        g.spec_id() == s[i].spec_id(),
    ensures
        forall|k: Seq<char>, t: Slot|
            #[trigger] outbox_in(s.update(i, g), k, t) == if k == s[i].spec_id() {
                g.outbox(t)
            } else {
                outbox_in(s, k, t)
            },
{
    let u = s.update(i, g);
    lemma_map_update(s, i, g);
    assert forall|k: Seq<char>, t: Slot|
        #[trigger] outbox_in(u, k, t) == if k == s[i].spec_id() {
            g.outbox(t)
        } else {
            outbox_in(s, k, t)
        } by {
        if has_id(s, k) {
            let j = choose|j: int| 0 <= j < s.len() && #[trigger] s[j].spec_id() == k;
            assert(u[j].spec_id() == k);
            lemma_game_at(u, j);
            lemma_game_at(s, j);
        }
        if has_id(u, k) {
            let j = choose|j: int| 0 <= j < u.len() && #[trigger] u[j].spec_id() == k;
            assert(s[j].spec_id() == k);
        }
    }
}

proof fn lemma_outbox_push(s: Seq<Game>, g: Game)
    requires
        unique_ids(s),
        !has_id(s, g.spec_id()),
    ensures
        forall|k: Seq<char>, t: Slot|
            #[trigger] outbox_in(s.push(g), k, t) == if k == g.spec_id() {
                g.outbox(t)
            } else {
                outbox_in(s, k, t)
            },
{
    let u = s.push(g);
    lemma_map_push(s, g);
    assert forall|k: Seq<char>, t: Slot|
        #[trigger] outbox_in(u, k, t) == if k == g.spec_id() {
            g.outbox(t)
        } else {
            outbox_in(s, k, t)
        } by {
        lemma_game_at(u, s.len() as int);
        if has_id(s, k) {
            let j = choose|j: int| 0 <= j < s.len() && #[trigger] s[j].spec_id() == k;
            assert(u[j] == s[j]);
            lemma_game_at(u, j);
            lemma_game_at(s, j);
        }
        if has_id(u, k) {
            let j = choose|j: int| 0 <= j < u.len() && #[trigger] u[j].spec_id() == k;
            if j < s.len() {
                assert(s[j].spec_id() == k);
            }
        }
    }
}

/// The paddle position in `slot` of game `id`, where both exist.
pub open spec fn position_of(m: Map<Seq<char>, GameView>, id: Seq<char>, slot: Slot) -> Option<
    Coord,
> {
    if m.contains_key(id) {
        match player_at(m[id], slot) {
            Some(p) => Some(p.y),
            None => None,
        }
    } else {
        None
    }
}

impl View for GameStore {
    type V = Map<Seq<char>, GameView>;

    closed spec fn view(&self) -> Map<Seq<char>, GameView> {
        games_map(self.games@)
    }
}

impl GameStore {
    /// Identifiers are unique and every game is well formed.
    pub closed spec fn wf(&self) -> bool {
        &&& unique_ids(self.games@)
        &&& forall|i: int| 0 <= i < self.games@.len() ==> #[trigger] self.games@[i].wf()
    }

    /// The outbound queue attached to slot `t` of game `id`, if any.
    pub closed spec fn outbox(&self, id: Seq<char>, t: Slot) -> Option<Outbox> {
        outbox_in(self.games@, id, t)
    }

    /// Every game of a well-formed store is well formed.
    pub proof fn lemma_wf(&self, id: Seq<char>)
        requires
            self.wf(),
            self@.contains_key(id),
        ensures
            game_wf(self@[id]),
    {
        let j = choose|j: int|
            0 <= j < self.games@.len() && #[trigger] self.games@[j].spec_id() == id;
        lemma_map_at(self.games@, j);
        self.games@[j].lemma_wf();
    }

    pub fn new() -> (r: GameStore)
        ensures
            r.wf(),
            r@ == Map::<Seq<char>, GameView>::empty(),
    {
        let r = GameStore { games: Vec::new() };
        assert(r@ =~= Map::<Seq<char>, GameView>::empty());
        r
    }

    fn find(&self, id: &str) -> (r: Option<usize>)
        requires
            self.wf(),
        ensures
            match r {
                Some(i) => i < self.games@.len() && self.games@[i as int].spec_id() == id@
                    && self@.contains_key(id@) && self@[id@] == self.games@[i as int]@,
                None => !self@.contains_key(id@),
            },
    {
        let key = id.to_owned();
        let mut i: usize = 0;
        while i < self.games.len()
            invariant
                self.wf(),
                i <= self.games@.len(),
                key@ == id@,
                forall|j: int| 0 <= j < i ==> #[trigger] self.games@[j].spec_id() != id@,
            decreases self.games@.len() - i,
        {
            if *self.games[i].id() == key {
                proof {
                    lemma_map_at(self.games@, i as int);
                }
                return Some(i);
            }
            i = i + 1;
        }
        None
    }

    /// The game with identifier `id`.
    pub fn get(&self, id: &str) -> (r: Option<&Game>)
        requires
            self.wf(),
        ensures
            match r {
                Some(g) => self@.contains_key(id@) && g@ == self@[id@] && g.spec_id() == id@
                    && g.wf() && g.outbox(Slot::Left) == self.outbox(id@, Slot::Left)
                    && g.outbox(Slot::Right) == self.outbox(id@, Slot::Right),
                None => !self@.contains_key(id@),
            },
    {
        match self.find(id) {
            Some(i) => {
                proof {
                    lemma_game_at(self.games@, i as int);
                }
                Some(&self.games[i])
            },
            None => None,
        }
    }

    /// Adds a fresh game under `id`, unless a game has that identifier
    /// already; returns whether it was added.
    pub fn insert_game(&mut self, id: String) -> (r: bool)
        requires
            old(self).wf(),
        ensures
            final(self).wf(),
            r == !old(self)@.contains_key(id@),
            final(self)@ == if r {
                old(self)@.insert(id@, fresh_game())
            } else {
                old(self)@
            },
            forall|k: Seq<char>, t: Slot|
                #[trigger] final(self).outbox(k, t) == if r && k == id@ {
                    None
                } else {
                    old(self).outbox(k, t)
                },
    {
        match self.find(id.as_str()) {
            Some(_) => false,
            None => {
                let g = Game::new(id);
                proof {
                    lemma_map_push(self.games@, g);
                    lemma_outbox_push(self.games@, g);
                }
                self.games.push(g);
                true
            },
        }
    }

    /// Creates a game under a fresh random identifier and returns it; `None`
    /// in the unlikely event that the identifier drawn is taken already.
    pub fn create_session(&mut self) -> (r: Option<String>)
        requires
            old(self).wf(),
        ensures
            final(self).wf(),
            match r {
                Some(id) => !old(self)@.contains_key(id@) && final(self)@ == old(self)@.insert(
                    id@,
                    fresh_game(),
                ),
                None => final(self)@ == old(self)@,
            },
            r is None ==> exists|k: Seq<char>| old(self)@.contains_key(k),
            forall|k: Seq<char>, t: Slot|
                #[trigger] final(self).outbox(k, t) == match r {
                    Some(id) => if k == id@ {
                        None
                    } else {
                        old(self).outbox(k, t)
                    },
                    None => old(self).outbox(k, t),
                },
    {
        let id = random_id();
        let key = id.clone();
        if self.insert_game(id) {
            Some(key)
        } else {
            None
        }
    }

    /// Gives a caller a slot in game `id`: the left one if free, else the
    /// right one if free, else `SessionFull`; `SessionNotFound` for an
    /// unknown game. A failed join changes nothing.
    pub fn join(&mut self, id: &str) -> (r: Result<Slot, JoinError>)
        requires
            old(self).wf(),
        ensures
            final(self).wf(),
            if old(self)@.contains_key(id@) {
                let g = old(self)@[id@];
                &&& r == crate::game::join_result(g)
                &&& final(self)@ == old(self)@.insert(id@, after_join(g))
            } else {
                r == Err::<Slot, JoinError>(JoinError::SessionNotFound) && final(self)@ == old(
                    self,
                )@
            },
            forall|k: Seq<char>, t: Slot|
                #[trigger] final(self).outbox(k, t) == old(self).outbox(k, t),
    {
        match self.find(id) {
            Some(i) => {
                let ghost s = self.games@;
                let r = self.games[i].add_player();
                proof {
                    lemma_map_update(s, i as int, self.games@[i as int]);
                    lemma_outbox_update(s, i as int, self.games@[i as int]);
                    assert(self.games@ == s.update(i as int, self.games@[i as int]));
                }
                r
            },
            None => Err(JoinError::SessionNotFound),
        }
    }
    /// Attaches an outbound queue to slot `slot` of game `id`; does nothing,
    /// and returns false, where the game or the occupant is absent.
    pub fn attach_channel(&mut self, id: &str, slot: Slot, tx: Outbox) -> (r: bool)
        requires
            old(self).wf(),
        ensures
            final(self).wf(),
            if old(self)@.contains_key(id@) {
                let g = old(self)@[id@];
                &&& r == (player_at(g, slot) is Some)
                &&& final(self)@ == old(self)@.insert(id@, after_attach(g, slot))
            } else {
                !r && final(self)@ == old(self)@
            },
            r ==> final(self).outbox(id@, slot) == Some(tx),
            forall|k: Seq<char>, t: Slot|
                (!r || k != id@ || t != slot) ==> #[trigger] final(self).outbox(k, t) == old(
                    self,
                ).outbox(k, t),
    {
        match self.find(id) {
            Some(i) => {
                let ghost s = self.games@;
                let r = self.games[i].set_player_tx(slot.id(), tx);
                proof {
                    lemma_map_update(s, i as int, self.games@[i as int]);
                    lemma_outbox_update(s, i as int, self.games@[i as int]);
                    assert(self.games@ == s.update(i as int, self.games@[i as int]));
                }
                r
            },
            None => false,
        }
    }

    /// Records that the player in `slot` of game `id` is ready. Returns true
    /// exactly when this call makes both players ready, which makes the game
    /// active: the one signal on which the simulation loop is started.
    pub fn mark_ready(&mut self, id: &str, slot: Slot) -> (r: bool)
        requires
            old(self).wf(),
        ensures
            final(self).wf(),
            if old(self)@.contains_key(id@) {
                let g = old(self)@[id@];
                &&& r == ready_signal(g, slot)
                &&& final(self)@ == old(self)@.insert(id@, after_ready(g, slot))
            } else {
                !r && final(self)@ == old(self)@
            },
            forall|k: Seq<char>, t: Slot|
                #[trigger] final(self).outbox(k, t) == old(self).outbox(k, t),
    {
        match self.find(id) {
            Some(i) => {
                let ghost s = self.games@;
                let r = self.games[i].set_player_ready(slot.id());
                proof {
                    lemma_map_update(s, i as int, self.games@[i as int]);
                    lemma_outbox_update(s, i as int, self.games@[i as int]);
                    assert(self.games@ == s.update(i as int, self.games@[i as int]));
                }
                r
            },
            None => false,
        }
    }

    /// Moves the paddle in `slot` of game `id` to `y`, the last write
    /// winning; does nothing, and returns false, where the game or the
    /// occupant is absent.
    pub fn apply_move(&mut self, id: &str, slot: Slot, y: Coord) -> (r: bool)
        requires
            old(self).wf(),
        ensures
            final(self).wf(),
            if old(self)@.contains_key(id@) {
                let g = old(self)@[id@];
                &&& r == (player_at(g, slot) is Some)
                &&& final(self)@ == old(self)@.insert(id@, after_move(g, slot, y))
            } else {
                !r && final(self)@ == old(self)@
            },
            forall|k: Seq<char>, t: Slot|
                #[trigger] final(self).outbox(k, t) == old(self).outbox(k, t),
    {
        match self.find(id) {
            Some(i) => {
                let ghost s = self.games@;
                let r = self.games[i].update_player_pos(slot.id(), y);
                proof {
                    lemma_map_update(s, i as int, self.games@[i as int]);
                    lemma_outbox_update(s, i as int, self.games@[i as int]);
                    assert(self.games@ == s.update(i as int, self.games@[i as int]));
                }
                r
            },
            None => false,
        }
    }

    /// The paddle position in `slot` of game `id`.
    pub fn position(&self, id: &str, slot: Slot) -> (r: Option<Coord>)
        requires
            self.wf(),
        ensures
            r == position_of(self@, id@, slot),
    {
        match self.get(id) {
            Some(g) => match g.get_player(slot.id()) {
                Some(p) => Some(p.y),
                None => None,
            },
            None => None,
        }
    }

    /// Both paddle positions of game `id`, left first, where the game exists
    /// and both slots are occupied.
    pub fn snapshot_positions(&self, id: &str) -> (r: Option<(Coord, Coord)>)
        requires
            self.wf(),
        ensures
            r == if self@.contains_key(id@) {
                match (player_at(self@[id@], Slot::Left), player_at(self@[id@], Slot::Right)) {
                    (Some(a), Some(b)) => Some((a.y, b.y)),
                    _ => None,
                }
            } else {
                None
            },
    {
        match self.get(id) {
            Some(g) => paddles(g),
            None => None,
        }
    }

    /// Applies one physics step to game `id` while it is active: scores the
    /// point that a wall contact gives, resets both paddles after a point,
    /// and returns what to send to whom. `None`, with nothing changed, where
    /// the game is absent or not active.
    pub fn apply_tick_result(&mut self, id: &str, step: StepResult) -> (r: Option<TickOutcome>)
        requires
            old(self).wf(),
        ensures
            final(self).wf(),
            if old(self)@.contains_key(id@) && old(self)@[id@].lifecycle == Lifecycle::Active {
                let g = after_step(old(self)@[id@], step);
                &&& final(self)@ == old(self)@.insert(id@, g)
                &&& r matches Some(o) && o.scorer == scorer_of(step) && o.deliveries@
                    == deliveries_of(g, step)
            } else {
                r is None && final(self)@ == old(self)@
            },
            forall|k: Seq<char>, t: Slot|
                #[trigger] final(self).outbox(k, t) == old(self).outbox(k, t),
    {
        match self.find(id) {
            Some(i) => {
                if self.games[i].lifecycle() != Lifecycle::Active {
                    return None;
                }
                let ghost s = self.games@;
                let r = apply_step(&mut self.games[i], &step);
                proof {
                    lemma_map_update(s, i as int, self.games@[i as int]);
                    lemma_outbox_update(s, i as int, self.games@[i as int]);
                    assert(self.games@ == s.update(i as int, self.games@[i as int]));
                }
                Some(r)
            },
            None => None,
        }
    }
}

} // verus!
