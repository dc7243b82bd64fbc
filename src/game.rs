use vstd::prelude::*;

use crate::slot::Slot;

verus! {

/// Declares tokio's `mpsc::UnboundedSender` so that a player can hold the
/// sending half of its outbound queue. Nothing of its contents is read here.
#[verifier::external_type_specification]
#[verifier::external_body]
#[verifier::reject_recursive_types(T)]
pub struct ExUnboundedSender<T>(tokio::sync::mpsc::UnboundedSender<T>);

/// The sending half of a player's outbound queue: encoded frames pushed here
/// are written to that player's connection by a forwarding task.
pub type Outbox = tokio::sync::mpsc::UnboundedSender<String>;

/// A vertical coordinate in simulation units, held as the bit pattern of an
/// IEEE-754 single-precision number. The engine stores, copies and compares
/// it; any arithmetic on it happens at the protocol and physics edges.
#[derive(Clone, Copy, Debug, PartialEq, Eq, Structural)]
pub struct Coord {
    pub bits: u32,
}

/// Bit pattern of the vertical start coordinate shared by both paddles:
/// half the playfield height (two thirds of a width of 100) less half a
/// paddle height of 8, that is 29.333332.
pub const PADDLE_START_Y_BITS: u32 = 0x41ea_aaaa;

pub open spec fn paddle_start() -> Coord {
    Coord { bits: PADDLE_START_Y_BITS }
}

pub fn paddle_start_y() -> (r: Coord)
    ensures
        r == paddle_start(),
{
    Coord { bits: PADDLE_START_Y_BITS }
}

/// Whether a player's connection currently has an outbound queue.
pub enum Attachment {
    Detached,
    Attached(Outbox),
}

/// One occupant of a game.
pub struct Player {
    pub slot: Slot,
    pub y: Coord,
    pub score: u32,
    pub is_ready: bool,
    pub tx: Attachment,
}

/// What the engine's rules read of a player.
pub struct PlayerView {
    pub y: Coord,
    pub score: u32,
    pub ready: bool,
    pub attached: bool,
}

impl View for Player {
    type V = PlayerView;

    open spec fn view(&self) -> PlayerView {
        PlayerView {
            y: self.y,
            score: self.score,
            ready: self.is_ready,
            attached: self.tx is Attached,
        }
    }
}

/// A player that has just joined: at the start coordinate, no points, not
/// ready, no connection.
pub open spec fn joined_player() -> PlayerView {
    PlayerView { y: paddle_start(), score: 0, ready: false, attached: false }
}

impl Player {
    pub fn new(slot: Slot, y: Coord) -> (r: Player)
        ensures
            r.slot == slot,
            r@ == (PlayerView { y: y, score: 0, ready: false, attached: false }),
    {
        Player { slot, y, score: 0, is_ready: false, tx: Attachment::Detached }
    }
}

/// The stages of a game: players are awaited, then their readiness, then the
/// simulation runs.
#[derive(Clone, Copy, Debug, PartialEq, Eq, Structural)]
pub enum Lifecycle {
    WaitingForPlayers,
    WaitingForReady,
    Active,
}

/// Why a player could not join a game.
#[derive(Clone, Copy, Debug, PartialEq, Eq, Structural)]
pub enum JoinError {
    SessionNotFound,
    SessionFull,
}

/// The abstract state of a game.
pub struct GameView {
    pub lifecycle: Lifecycle,
    pub left: Option<PlayerView>,
    pub right: Option<PlayerView>,
}

pub open spec fn fresh_game() -> GameView {
    GameView { lifecycle: Lifecycle::WaitingForPlayers, left: None, right: None }
}

pub open spec fn player_at(g: GameView, s: Slot) -> Option<PlayerView> {
    match s {
        Slot::Left => g.left,
        Slot::Right => g.right,
    }
}

pub open spec fn with_player(g: GameView, s: Slot, p: Option<PlayerView>) -> GameView {
    match s {
        Slot::Left => GameView { left: p, ..g },
        Slot::Right => GameView { right: p, ..g },
    }
}

pub open spec fn occupied(g: GameView, s: Slot) -> bool {
    player_at(g, s) is Some
}

pub open spec fn both_occupied(g: GameView) -> bool {
    occupied(g, Slot::Left) && occupied(g, Slot::Right)
}

pub open spec fn num_occupied(g: GameView) -> nat {
    (if occupied(g, Slot::Left) { 1nat } else { 0nat }) + (if occupied(g, Slot::Right) {
        1nat
    } else {
        0nat
    })
}

pub open spec fn is_ready(g: GameView, s: Slot) -> bool {
    match player_at(g, s) {
        Some(p) => p.ready,
        None => false,
    }
}

/// Both slots are occupied and both occupants have said they are ready.
pub open spec fn both_ready(g: GameView) -> bool {
    is_ready(g, Slot::Left) && is_ready(g, Slot::Right)
}

/// The lifecycle follows the slots: players are awaited until both slots are
/// taken, and the game is active exactly when both players are ready.
pub open spec fn game_wf(g: GameView) -> bool {
    &&& (g.lifecycle == Lifecycle::WaitingForPlayers <==> !both_occupied(g))
    &&& (g.lifecycle == Lifecycle::Active <==> both_ready(g))
}

/// The slot that the next join receives, or why there is none.
pub open spec fn join_result(g: GameView) -> Result<Slot, JoinError> {
    if !occupied(g, Slot::Left) {
        Ok(Slot::Left)
    } else if !occupied(g, Slot::Right) {
        Ok(Slot::Right)
    } else {
        Err(JoinError::SessionFull)
    }
}

/// The game after a join: the free slot taken, the lifecycle moved on once
/// both are taken.
pub open spec fn after_join(g: GameView) -> GameView {
    match join_result(g) {
        Ok(s) => {
            let h = with_player(g, s, Some(joined_player()));
            GameView {
                lifecycle: if both_occupied(h) {
                    Lifecycle::WaitingForReady
                } else {
                    Lifecycle::WaitingForPlayers
                },
                ..h
            }
        },
        Err(_) => g,
    }
}

pub open spec fn set_ready(g: GameView, s: Slot) -> GameView {
    match player_at(g, s) {
        Some(p) => with_player(g, s, Some(PlayerView { ready: true, ..p })),
        None => g,
    }
}

/// A ready from `s` is the one that makes both players ready.
pub open spec fn ready_signal(g: GameView, s: Slot) -> bool {
    !both_ready(g) && both_ready(set_ready(g, s))
}

/// The game after a ready from `s`: the flag set, and the game active when
/// that makes both players ready.
pub open spec fn after_ready(g: GameView, s: Slot) -> GameView {
    let h = set_ready(g, s);
    if ready_signal(g, s) {
        GameView { lifecycle: Lifecycle::Active, ..h }
    } else {
        h
    }
}

/// The game after the paddle in `s` moved to `y`.
pub open spec fn after_move(g: GameView, s: Slot, y: Coord) -> GameView {
    match player_at(g, s) {
        Some(p) => with_player(g, s, Some(PlayerView { y: y, ..p })),
        None => g,
    }
}

/// The game after a connection was attached to `s`.
pub open spec fn after_attach(g: GameView, s: Slot) -> GameView {
    match player_at(g, s) {
        Some(p) => with_player(g, s, Some(PlayerView { attached: true, ..p })),
        None => g,
    }
}

/// A score one higher, held at the largest `u32`.
pub open spec fn bumped(n: u32) -> u32 {
    if n < u32::MAX {
        (n + 1) as u32
    } else {
        n
    }
}

/// The game after `s` scored a point.
pub open spec fn after_point(g: GameView, s: Slot) -> GameView {
    match player_at(g, s) {
        Some(p) => with_player(g, s, Some(PlayerView { score: bumped(p.score), ..p })),
        None => g,
    }
}

/// One match's state: its identifier, its stage and the occupant of each
/// slot.
pub struct Game {
    pub id: String,
    lifecycle: Lifecycle,
    left: Option<Player>,
    right: Option<Player>,
}

pub open spec fn opt_view(p: Option<Player>) -> Option<PlayerView> {
    match p {
        Some(q) => Some(q@),
        None => None,
    }
}

pub open spec fn opt_outbox(p: Option<Player>) -> Option<Outbox> {
    match p {
        Some(Player { tx: Attachment::Attached(o), .. }) => Some(o),
        _ => None,
    }
}

pub open spec fn placed(p: Option<Player>, s: Slot) -> bool {
    match p {
        Some(q) => q.slot == s,
        None => true,
    }
}

impl View for Game {
    type V = GameView;

    closed spec fn view(&self) -> GameView {
        GameView {
            lifecycle: self.lifecycle,
            left: opt_view(self.left),
            right: opt_view(self.right),
        }
    }
}

fn ready_in(p: &mut Option<Player>)
    ensures
        opt_view(*final(p)) == match opt_view(*old(p)) {
            Some(v) => Some(PlayerView { ready: true, ..v }),
            None => None,
        },
        opt_outbox(*final(p)) == opt_outbox(*old(p)),
        forall|s: Slot| placed(*old(p), s) ==> placed(*final(p), s),
{
    match p {
        Some(q) => {
            q.is_ready = true;
        },
        None => {},
    }
}

fn move_in(p: &mut Option<Player>, y: Coord)
    ensures
        opt_view(*final(p)) == match opt_view(*old(p)) {
            Some(v) => Some(PlayerView { y: y, ..v }),
            None => None,
        },
        opt_outbox(*final(p)) == opt_outbox(*old(p)),
        forall|s: Slot| placed(*old(p), s) ==> placed(*final(p), s),
{
    match p {
        Some(q) => {
            q.y = y;
        },
        None => {},
    }
}

fn score_in(p: &mut Option<Player>)
    ensures
        opt_view(*final(p)) == match opt_view(*old(p)) {
            Some(v) => Some(PlayerView { score: bumped(v.score), ..v }),
            None => None,
        },
        opt_outbox(*final(p)) == opt_outbox(*old(p)),
        forall|s: Slot| placed(*old(p), s) ==> placed(*final(p), s),
{
    match p {
        Some(q) => {
            if q.score < u32::MAX {
                q.score = q.score + 1;
            }
        },
        None => {},
    }
}

fn attach_in(p: &mut Option<Player>, tx: Outbox)
    ensures
        opt_view(*final(p)) == match opt_view(*old(p)) {
            Some(v) => Some(PlayerView { attached: true, ..v }),
            None => None,
        },
        opt_view(*old(p)) is Some ==> opt_outbox(*final(p)) == Some(tx),
        opt_view(*old(p)) is None ==> opt_outbox(*final(p)) is None,
        forall|s: Slot| placed(*old(p), s) ==> placed(*final(p), s),
{
    match p {
        Some(q) => {
            q.tx = Attachment::Attached(tx);
        },
        None => {},
    }
}

impl Game {
    /// The lifecycle agrees with the slots, and each occupant sits in its own
    /// slot.
    pub closed spec fn wf(&self) -> bool {
        &&& game_wf(self@)
        &&& placed(self.left, Slot::Left)
        &&& placed(self.right, Slot::Right)
    }

    /// The game's identifier.
    pub closed spec fn spec_id(&self) -> Seq<char> {
        self.id@
    }

    pub fn id(&self) -> (r: &String)
        ensures
            r@ == self.spec_id(),
    {
        &self.id
    }

    /// The outbound queue attached to slot `s`, if any.
    pub closed spec fn outbox(&self, s: Slot) -> Option<Outbox> {
        match s {
            Slot::Left => opt_outbox(self.left),
            Slot::Right => opt_outbox(self.right),
        }
    }

    /// A new game with both slots free.
    pub fn new(id: String) -> (r: Game)
        ensures
            r.spec_id() == id@,
            r@ == fresh_game(),
            r.wf(),
            game_wf(r@),
            r.outbox(Slot::Left) is None,
            r.outbox(Slot::Right) is None,
    {
        Game { id, lifecycle: Lifecycle::WaitingForPlayers, left: None, right: None }
    }

    pub fn num_players(&self) -> (r: usize)
        ensures
            r == num_occupied(self@),
    {
        let a: usize = if self.left.is_some() { 1 } else { 0 };
        let b: usize = if self.right.is_some() { 1 } else { 0 };
        a + b
    }

    /// Gives the caller the left slot if it is free, else the right one if it
    /// is free, else fails with `SessionFull`.
    pub fn add_player(&mut self) -> (r: Result<Slot, JoinError>)
        requires
            old(self).wf(),
        ensures
            final(self).wf(),
            r == join_result(old(self)@),
            final(self)@ == after_join(old(self)@),
            game_wf(final(self)@),
            final(self).spec_id() == old(self).spec_id(),
            final(self).outbox(Slot::Left) == old(self).outbox(Slot::Left),
            final(self).outbox(Slot::Right) == old(self).outbox(Slot::Right),
    {
        if self.left.is_none() {
            self.left = Some(Player::new(Slot::Left, paddle_start_y()));
            if self.right.is_some() {
                self.lifecycle = Lifecycle::WaitingForReady;
            }
            Ok(Slot::Left)
        } else if self.right.is_none() {
            self.right = Some(Player::new(Slot::Right, paddle_start_y()));
            self.lifecycle = Lifecycle::WaitingForReady;
            Ok(Slot::Right)
        } else {
            Err(JoinError::SessionFull)
        }
    }
    /// A well-formed game has a well-formed state.
    pub proof fn lemma_wf(&self)
        requires
            self.wf(),
        ensures
            game_wf(self@),
    {
    }

    /// Attaches an outbound queue to the player named `player_id`; does
    /// nothing, and returns false, where there is no such player.
    pub fn set_player_tx(&mut self, player_id: &str, tx: Outbox) -> (r: bool)
        requires
            old(self).wf(),
        ensures
            final(self).wf(),
            final(self).spec_id() == old(self).spec_id(),
            match Slot::spec_from_id(player_id@) {
                Some(s) => {
                    &&& r == occupied(old(self)@, s)
                    &&& final(self)@ == after_attach(old(self)@, s)
                    &&& r ==> final(self).outbox(s) == Some(tx)
                    &&& final(self).outbox(s.spec_other()) == old(self).outbox(s.spec_other())
                },
                None => !r && final(self)@ == old(self)@,
            },
            !r ==> final(self).outbox(Slot::Left) == old(self).outbox(Slot::Left),
            !r ==> final(self).outbox(Slot::Right) == old(self).outbox(Slot::Right),
    {
        match Slot::from_id(player_id) {
            Some(Slot::Left) => {
                let r = self.left.is_some();
                attach_in(&mut self.left, tx);
                r
            },
            Some(Slot::Right) => {
                let r = self.right.is_some();
                attach_in(&mut self.right, tx);
                r
            },
            None => false,
        }
    }

    /// Records that the player named `player_id` is ready. Returns true
    /// exactly when this makes both players ready, which also makes the game
    /// active; a repeated ready, a ready while the other player is not ready,
    /// and a ready for a free slot or an unknown name return false.
    pub fn set_player_ready(&mut self, player_id: &str) -> (r: bool)
        requires
            old(self).wf(),
        ensures
            final(self).wf(),
            final(self).spec_id() == old(self).spec_id(),
            final(self).outbox(Slot::Left) == old(self).outbox(Slot::Left),
            final(self).outbox(Slot::Right) == old(self).outbox(Slot::Right),
            match Slot::spec_from_id(player_id@) {
                Some(s) => r == ready_signal(old(self)@, s) && final(self)@ == after_ready(
                    old(self)@,
                    s,
                ),
                None => !r && final(self)@ == old(self)@,
            },
    {
        let was_ready = self.both_players_ready();
        match Slot::from_id(player_id) {
            Some(Slot::Left) => ready_in(&mut self.left),
            Some(Slot::Right) => ready_in(&mut self.right),
            None => {
                return false;
            },
        }
        let now_ready = self.both_players_ready();
        if !was_ready && now_ready {
            self.lifecycle = Lifecycle::Active;
            true
        } else {
            false
        }
    }

    /// Moves the paddle of the player named `player_id` to `y`; does nothing,
    /// and returns false, where there is no such player.
    pub fn update_player_pos(&mut self, player_id: &str, y: Coord) -> (r: bool)
        requires
            old(self).wf(),
        ensures
            final(self).wf(),
            final(self).spec_id() == old(self).spec_id(),
            final(self).outbox(Slot::Left) == old(self).outbox(Slot::Left),
            final(self).outbox(Slot::Right) == old(self).outbox(Slot::Right),
            match Slot::spec_from_id(player_id@) {
                Some(s) => r == occupied(old(self)@, s) && final(self)@ == after_move(
                    old(self)@,
                    s,
                    y,
                ),
                None => !r && final(self)@ == old(self)@,
            },
    {
        match Slot::from_id(player_id) {
            Some(Slot::Left) => {
                let r = self.left.is_some();
                move_in(&mut self.left, y);
                r
            },
            Some(Slot::Right) => {
                let r = self.right.is_some();
                move_in(&mut self.right, y);
                r
            },
            None => false,
        }
    }

    /// Gives the player named `player_id` one more point (a score at the
    /// largest `u32` stays there); does nothing, and returns false, where
    /// there is no such player.
    pub fn inc_player_score(&mut self, player_id: &str) -> (r: bool)
        requires
            old(self).wf(),
        ensures
            final(self).wf(),
            final(self).spec_id() == old(self).spec_id(),
            final(self).outbox(Slot::Left) == old(self).outbox(Slot::Left),
            final(self).outbox(Slot::Right) == old(self).outbox(Slot::Right),
            match Slot::spec_from_id(player_id@) {
                Some(s) => r == occupied(old(self)@, s) && final(self)@ == after_point(
                    old(self)@,
                    s,
                ),
                None => !r && final(self)@ == old(self)@,
            },
    {
        match Slot::from_id(player_id) {
            Some(Slot::Left) => {
                let r = self.left.is_some();
                score_in(&mut self.left);
                r
            },
            Some(Slot::Right) => {
                let r = self.right.is_some();
                score_in(&mut self.right);
                r
            },
            None => false,
        }
    }

    pub fn both_players_ready(&self) -> (r: bool)
        ensures
            r == both_ready(self@),
    {
        let a = match &self.left {
            Some(p) => p.is_ready,
            None => false,
        };
        let b = match &self.right {
            Some(p) => p.is_ready,
            None => false,
        };
        a && b
    }

    /// The player named `player_id`, if that slot is occupied.
    pub fn get_player(&self, player_id: &str) -> (r: Option<&Player>)
        ensures
            match Slot::spec_from_id(player_id@) {
                Some(s) => match r {
                    Some(p) => player_at(self@, s) == Some(p@) && self.outbox(s) == match p.tx {
                        Attachment::Attached(o) => Some(o),
                        Attachment::Detached => None,
                    },
                    None => !occupied(self@, s),
                },
                None => r is None,
            },
    {
        match Slot::from_id(player_id) {
            Some(Slot::Left) => self.left.as_ref(),
            Some(Slot::Right) => self.right.as_ref(),
            None => None,
        }
    }

    pub fn lifecycle(&self) -> (r: Lifecycle)
        ensures
            r == self@.lifecycle,
    {
        self.lifecycle
    }
}

} // verus!
