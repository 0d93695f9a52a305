//! Laws of the update rules: facts that hold of every game state, proved once
//! and for all over the mathematical models.

use vstd::prelude::*;
use crate::game::{
    BallModel,
    GameModel,
    ball_integrated,
    ball_ticked,
    clamped_cursor_y,
    game_pointer_moved,
    game_ticked,
    hits_horizontal_wall,
    out_of_bounds_x,
};

verus! {

/// A tick moves the ball by exactly its velocity times `dt`: integration is
/// one exact Euler step, the wall rule never moves the ball vertically, and
/// the horizontal recentering only acts once the ball has left the playfield.
pub proof fn lemma_tick_moves_ball_by_velocity(b: BallModel, dt: int)
    ensures
        ball_integrated(b, dt).x == b.x + b.x_vel * dt,
        ball_integrated(b, dt).y == b.y + b.y_vel * dt,
        ball_ticked(b, dt).y == b.y + b.y_vel * dt,
        !out_of_bounds_x(b.x + b.x_vel * dt) ==> ball_ticked(b, dt).x == b.x + b.x_vel * dt,
{
}

/// A tick of zero milliseconds is a no-op, as long as the ball is neither
/// pressed against a wall while moving outward nor outside the playfield:
/// on such states the wall rule or the recentering still acts even at
/// `dt == 0`.
pub proof fn lemma_zero_tick_is_noop(g: GameModel)
    requires
        !hits_horizontal_wall(g.ball),
        !out_of_bounds_x(g.ball.x),
    ensures
        game_ticked(g, 0) == g,
{
    assert(ball_integrated(g.ball, 0) == g.ball);
}

/// One event the host loop can deliver: a logic tick of `dt` milliseconds,
/// or a pointer move to a vertical cursor position.
pub ghost enum GameEvent {
    Tick { dt: int },
    PointerMove { cursor_y: int },
}

/// The state after one event.
pub open spec fn game_stepped(g: GameModel, e: GameEvent) -> GameModel {
    match e {
        GameEvent::Tick { dt } => game_ticked(g, dt),
        GameEvent::PointerMove { cursor_y } => game_pointer_moved(g, cursor_y),
    }
}

/// The state after a whole sequence of events, delivered in order.
pub open spec fn game_run(g: GameModel, events: Seq<GameEvent>) -> GameModel
    decreases events.len(),
{
    if events.len() == 0 {
        g
    } else {
        game_run(game_stepped(g, events[0]), events.drop_first())
    }
}

/// No sequence of ticks and pointer moves ever changes the second player's
/// paddle: nothing in the update rules writes to it.
pub proof fn lemma_player_2_paddle_constant(g: GameModel, events: Seq<GameEvent>)
    ensures
        game_run(g, events).player_2_paddle == g.player_2_paddle,
    decreases events.len(),
{
    if events.len() != 0 {
        lemma_player_2_paddle_constant(game_stepped(g, events[0]), events.drop_first());
    }
}

/// A pointer move lands the paddle inside the playfield whatever the cursor
/// position: the clamped height is between zero and the lowest position whose
/// rectangle still fits.
pub proof fn lemma_pointer_move_stays_in_playfield(g: GameModel, cursor_y: int)
    ensures
        0 <= game_pointer_moved(g, cursor_y).player_1_paddle.y,
        game_pointer_moved(g, cursor_y).player_1_paddle.y <= crate::game::WINDOW_HEIGHT
            - crate::game::PADDLE_CLAMP_HEIGHT,
        clamped_cursor_y(cursor_y) == cursor_y <==> 0 <= cursor_y <= crate::game::WINDOW_HEIGHT
            - crate::game::PADDLE_CLAMP_HEIGHT,
{
}

} // verus!
