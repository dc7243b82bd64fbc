use vstd::prelude::*;

use crate::game::{
    after_move, after_point, paddle_start, paddle_start_y, player_at, Attachment, Coord,
    Game, GameView,
};
use crate::slot::Slot;

verus! {

/// What one physics step reports: the ball's new position and whether the
/// ball touched the left or the right boundary wall.
#[derive(Clone, Copy, Debug, PartialEq, Eq, Structural)]
pub struct StepResult {
    pub ball_x: Coord,
    pub ball_y: Coord,
    pub left_wall_contact: bool,
    pub right_wall_contact: bool,
}

/// An event sent to a player. Coordinates are in simulation units; scaling
/// them for display belongs to the encoder.
#[derive(Clone, Copy, Debug, PartialEq, Eq, Structural)]
pub enum ServerEvent {
    UpdateScreen { ball_x: Coord, ball_y: Coord, opponent_y: Coord },
    EndPoint { p1_score: u32, p2_score: u32 },
}

/// An event addressed to the player in slot `to`.
#[derive(Clone, Copy, Debug, PartialEq, Eq, Structural)]
pub struct Delivery {
    pub to: Slot,
    pub event: ServerEvent,
}

/// What the loop has to do after a step: renew the physics when a point was
/// scored, and send each delivery to its player's queue.
pub struct TickOutcome {
    pub scorer: Option<Slot>,
    pub deliveries: Vec<Delivery>,
}

/// The slot that scores in a step: touching the left wall is a point for the
/// right player; otherwise touching the right wall is one for the left player.
pub open spec fn scorer_of(step: StepResult) -> Option<Slot> {
    if step.left_wall_contact {
        Some(Slot::Right)
    } else if step.right_wall_contact {
        Some(Slot::Left)
    } else {
        None
    }
}

/// Both paddles back at their start coordinate.
pub open spec fn reset_paddles(g: GameView) -> GameView {
    after_move(after_move(g, Slot::Left, paddle_start()), Slot::Right, paddle_start())
}

/// The game after a step: on a point, the scorer's score is one higher and
/// both paddles are reset; otherwise nothing changes.
pub open spec fn after_step(g: GameView, step: StepResult) -> GameView {
    match scorer_of(step) {
        Some(s) => reset_paddles(after_point(g, s)),
        None => g,
    }
}

pub open spec fn score_of(g: GameView, s: Slot) -> u32 {
    match player_at(g, s) {
        Some(p) => p.score,
        None => 0,
    }
}

pub open spec fn y_of(g: GameView, s: Slot) -> Coord {
    match player_at(g, s) {
        Some(p) => p.y,
        None => paddle_start(),
    }
}

pub open spec fn attached(g: GameView, s: Slot) -> bool {
    match player_at(g, s) {
        Some(p) => p.attached,
        None => false,
    }
}

/// The event that the player in `to` receives after a step that left the
/// game in `g`: the scores after a point, else the ball and the position of
/// the other paddle (never the player's own).
pub open spec fn event_for(g: GameView, step: StepResult, to: Slot) -> ServerEvent {
    match scorer_of(step) {
        Some(_) => ServerEvent::EndPoint {
            p1_score: score_of(g, Slot::Left),
            p2_score: score_of(g, Slot::Right),
        },
        None => ServerEvent::UpdateScreen {
            ball_x: step.ball_x,
            ball_y: step.ball_y,
            opponent_y: y_of(g, to.spec_other()),
        },
    }
}

pub open spec fn delivery_to(g: GameView, step: StepResult, to: Slot) -> Seq<Delivery> {
    if attached(g, to) {
        seq![Delivery { to: to, event: event_for(g, step, to) }]
    } else {
        seq![]
    }
}

/// One delivery for each slot with a connection, left first; a slot without
/// one is skipped.
pub open spec fn deliveries_of(g: GameView, step: StepResult) -> Seq<Delivery> {
    delivery_to(g, step, Slot::Left) + delivery_to(g, step, Slot::Right)
}

/// Both paddle positions, left first, where both slots are occupied.
pub fn paddles(game: &Game) -> (r: Option<(Coord, Coord)>)
    ensures
        match (player_at(game@, Slot::Left), player_at(game@, Slot::Right)) {
            (Some(a), Some(b)) => r == Some((a.y, b.y)),
            _ => r is None,
        },
{
    match (game.get_player(Slot::Left.id()), game.get_player(Slot::Right.id())) {
        (Some(a), Some(b)) => Some((a.y, b.y)),
        _ => None,
    }
}

fn deliver(game: &Game, step: &StepResult, to: Slot, out: &mut Vec<Delivery>)
    ensures
        final(out)@ == old(out)@ + delivery_to(game@, *step, to),
{
    match game.get_player(to.id()) {
        Some(p) => {
            if let Attachment::Attached(_) = &p.tx {
                let event = match scorer(step) {
                    Some(_) => ServerEvent::EndPoint {
                        p1_score: score(game, Slot::Left),
                        p2_score: score(game, Slot::Right),
                    },
                    None => ServerEvent::UpdateScreen {
                        ball_x: step.ball_x,
                        ball_y: step.ball_y,
                        opponent_y: y_in(game, to.other()),
                    },
                };
                out.push(Delivery { to, event });
            }
        },
        None => {},
    }
    assert(final(out)@ =~= old(out)@ + delivery_to(game@, *step, to));
}

fn scorer(step: &StepResult) -> (r: Option<Slot>)
    ensures
        r == scorer_of(*step),
{
    if step.left_wall_contact {
        Some(Slot::Right)
    } else if step.right_wall_contact {
        Some(Slot::Left)
    } else {
        None
    }
}

fn score(game: &Game, s: Slot) -> (r: u32)
    ensures
        r == score_of(game@, s),
{
    match game.get_player(s.id()) {
        Some(p) => p.score,
        None => 0,
    }
}

fn y_in(game: &Game, s: Slot) -> (r: Coord)
    ensures
        r == y_of(game@, s),
{
    match game.get_player(s.id()) {
        Some(p) => p.y,
        None => paddle_start_y(),
    }
}

/// Applies one physics step to a game: scores the point that a wall
/// contact gives and resets both paddles, and lists the events to send to
/// the players that have a connection.
pub fn apply_step(game: &mut Game, step: &StepResult) -> (r: TickOutcome)
    requires
        old(game).wf(),
    ensures
        final(game).wf(),
        final(game).spec_id() == old(game).spec_id(),
        final(game)@ == after_step(old(game)@, *step),
        final(game).outbox(Slot::Left) == old(game).outbox(Slot::Left),
        final(game).outbox(Slot::Right) == old(game).outbox(Slot::Right),
        r.scorer == scorer_of(*step),
        r.deliveries@ == deliveries_of(final(game)@, *step),
{
    let who = scorer(step);
    match who {
        Some(s) => {
            game.inc_player_score(s.id());
            let start = paddle_start_y();
            game.update_player_pos(Slot::Left.id(), start);
            game.update_player_pos(Slot::Right.id(), start);
        },
        None => {},
    }
    let mut deliveries: Vec<Delivery> = Vec::new();
    deliver(game, step, Slot::Left, &mut deliveries);
    deliver(game, step, Slot::Right, &mut deliveries);
    assert(deliveries@ =~= deliveries_of(game@, *step));
    TickOutcome { scorer: who, deliveries }
}

} // verus!
