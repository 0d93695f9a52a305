//! Game state and the per-frame update rules.
//!
//! Coordinates live in a fixed-point world: `COORD_SCALE` sub-pixel units make
//! one pixel, and velocities are sub-pixels per millisecond. A tick first
//! integrates the ball by `dt` milliseconds (plain Euler, one step), then
//! flips the vertical velocity when the ball has crossed the top or bottom
//! wall while still moving outward, and finally resets a ball that left the
//! playfield horizontally back to the horizontal centre. A pointer move sets
//! the first player's paddle to the cursor height, clamped to the playfield.

use vstd::prelude::*;

verus! {

/// Sub-pixel units per pixel.
pub const COORD_SCALE: i64 = 1000;

/// Playfield width, in sub-pixels (640 pixels).
pub const WINDOW_WIDTH: i64 = 640 * COORD_SCALE;

/// Playfield height, in sub-pixels (480 pixels).
pub const WINDOW_HEIGHT: i64 = 480 * COORD_SCALE;

/// Ball radius used by the wall-collision test, in sub-pixels (20 pixels).
pub const BALL_RADIUS: i64 = 20 * COORD_SCALE;

/// Initial ball centre, in sub-pixels (320, 240 pixels).
pub const BALL_START_X: i64 = 320 * COORD_SCALE;
pub const BALL_START_Y: i64 = 240 * COORD_SCALE;

/// Initial ball velocity, in sub-pixels per millisecond (0.08 pixels/ms).
pub const BALL_START_X_VEL: i64 = 80;
pub const BALL_START_Y_VEL: i64 = 80;

/// Initial paddle rectangles, in sub-pixels.
pub const PLAYER_1_PADDLE_X: i64 = 20 * COORD_SCALE;
pub const PLAYER_2_PADDLE_X: i64 = 600 * COORD_SCALE;
pub const PADDLE_START_Y: i64 = 10 * COORD_SCALE;
pub const PADDLE_WIDTH: i64 = 20 * COORD_SCALE;
pub const PADDLE_HEIGHT: i64 = 120 * COORD_SCALE;

/// Height subtracted from the playfield when clamping a paddle, in
/// sub-pixels. Deliberately a constant of its own rather than a read of the
/// paddle's rectangle: the clamp rule is independent configuration.
pub const PADDLE_CLAMP_HEIGHT: i64 = 120 * COORD_SCALE;

/// Diameter at which the renderer draws the ball, in sub-pixels. Independent
/// of `BALL_RADIUS`: the drawn size and the collision radius are two separate
/// pieces of configuration that merely coincide in this build.
pub const BALL_DRAW_DIAMETER: i64 = 20 * COORD_SCALE;

/// A paddle rectangle: position of its top-left corner plus its size.
pub struct Paddle {
    pub x: i64,
    pub y: i64,
    pub width: i64,
    pub height: i64,
}

/// The ball: centre position plus velocity.
pub struct Ball {
    pub x: i64,
    pub y: i64,
    pub x_vel: i64,
    pub y_vel: i64,
}

/// The whole game: two paddles and the ball.
pub struct GameState {
    pub player_1_paddle: Paddle,
    pub player_2_paddle: Paddle,
    pub ball: Ball,
}

/// Mathematical image of a paddle, over unbounded integers.
pub ghost struct PaddleModel {
    pub x: int,
    pub y: int,
    pub width: int,
    pub height: int,
}

/// Mathematical image of the ball, over unbounded integers.
pub ghost struct BallModel {
    pub x: int,
    pub y: int,
    pub x_vel: int,
    pub y_vel: int,
}

/// Mathematical image of the whole game.
pub ghost struct GameModel {
    pub player_1_paddle: PaddleModel,
    pub player_2_paddle: PaddleModel,
    pub ball: BallModel,
}

impl View for Paddle {
    type V = PaddleModel;

    open spec fn view(&self) -> PaddleModel {
        PaddleModel {
            x: self.x as int,
            y: self.y as int,
            width: self.width as int,
            height: self.height as int,
        }
    }
}

impl View for Ball {
    type V = BallModel;

    open spec fn view(&self) -> BallModel {
        BallModel {
            x: self.x as int,
            y: self.y as int,
            x_vel: self.x_vel as int,
            y_vel: self.y_vel as int,
        }
    }
}

impl View for GameState {
    type V = GameModel;

    open spec fn view(&self) -> GameModel {
        GameModel {
            player_1_paddle: self.player_1_paddle@,
            player_2_paddle: self.player_2_paddle@,
            ball: self.ball@,
        }
    }
}

/// The ball after one Euler step of `dt` milliseconds: each coordinate moves
/// by its velocity times `dt`; the velocity itself is untouched.
pub open spec fn ball_integrated(b: BallModel, dt: int) -> BallModel {
    BallModel { x: b.x + b.x_vel * dt, y: b.y + b.y_vel * dt, ..b }
}

/// Whether the ball is past the top or bottom wall and still moving outward.
/// Only then does the wall act on it; a ball beyond a wall but already headed
/// back into the playfield is left alone.
pub open spec fn hits_horizontal_wall(b: BallModel) -> bool {
    (b.y < BALL_RADIUS && b.y_vel < 0) || (b.y > WINDOW_HEIGHT - BALL_RADIUS && b.y_vel > 0)
}

/// The wall rule: flip the vertical velocity when the ball hits the top or
/// bottom wall. The position is deliberately not clamped to the boundary, so
/// the ball may overshoot by one frame's travel before it turns around.
pub open spec fn ball_reflected(b: BallModel) -> BallModel {
    if hits_horizontal_wall(b) {
        BallModel { y_vel: -b.y_vel, ..b }
    } else {
        b
    }
}

/// Whether the ball has left the playfield on the left or the right.
pub open spec fn out_of_bounds_x(x: int) -> bool {
    x > WINDOW_WIDTH || x < 0
}

/// The out-of-bounds rule: a ball that left the playfield horizontally
/// reappears at the horizontal centre. Height and both velocity components
/// are kept, so this is not a full serve reset.
pub open spec fn ball_recentered(b: BallModel) -> BallModel {
    if out_of_bounds_x(b.x) {
        BallModel { x: WINDOW_WIDTH as int / 2, ..b }
    } else {
        b
    }
}

/// One whole tick of the ball: integrate, then apply the wall rule to the
/// integrated position, then the out-of-bounds rule.
pub open spec fn ball_ticked(b: BallModel, dt: int) -> BallModel {
    ball_recentered(ball_reflected(ball_integrated(b, dt)))
}

/// One whole tick of the game: only the ball moves.
pub open spec fn game_ticked(g: GameModel, dt: int) -> GameModel {
    GameModel { ball: ball_ticked(g.ball, dt), ..g }
}

/// The paddle height a cursor position is clamped to: first pulled down to
/// the lowest position whose rectangle still fits the playfield, then pulled
/// up to zero.
pub open spec fn clamped_cursor_y(cursor_y: int) -> int {
    let capped: int = if cursor_y > WINDOW_HEIGHT - PADDLE_CLAMP_HEIGHT {
        WINDOW_HEIGHT - PADDLE_CLAMP_HEIGHT
    } else {
        cursor_y
    };
    if capped < 0 {
        0
    } else {
        capped
    }
}

/// A pointer move: only the first player's paddle height changes, to the
/// clamped cursor height.
pub open spec fn game_pointer_moved(g: GameModel, cursor_y: int) -> GameModel {
    GameModel {
        player_1_paddle: PaddleModel { y: clamped_cursor_y(cursor_y), ..g.player_1_paddle },
        ..g
    }
}

impl Paddle {
    /// Builds a paddle from its rectangle.
    pub fn new(x: i64, y: i64, width: i64, height: i64) -> (p: Paddle)
        ensures
            p@ == (PaddleModel { x: x as int, y: y as int, width: width as int, height: height as int }),
    {
        Paddle { x, y, width, height }
    }
}

impl Ball {
    /// Builds a ball from its position and velocity.
    pub fn new(x: i64, y: i64, x_vel: i64, y_vel: i64) -> (b: Ball)
        ensures
            b@ == (BallModel { x: x as int, y: y as int, x_vel: x_vel as int, y_vel: y_vel as int }),
    {
        Ball { x, y, x_vel, y_vel }
    }
}

impl GameState {
    /// One logic tick of `dt` milliseconds: integrate the ball, flip its
    /// vertical velocity at the top and bottom walls, and recentre it
    /// horizontally once it has left the playfield. The paddles never move
    /// here. `dt` is not clamped: a large delta passes straight into the
    /// integration, and the preconditions only keep the fixed-width
    /// arithmetic in range.
    pub fn tick(&mut self, dt: i64)
        requires
            i64::MIN <= old(self).ball.x_vel * dt <= i64::MAX,
            i64::MIN <= old(self).ball.y_vel * dt <= i64::MAX,
            i64::MIN <= old(self).ball.x + old(self).ball.x_vel * dt <= i64::MAX,
            i64::MIN <= old(self).ball.y + old(self).ball.y_vel * dt <= i64::MAX,
            hits_horizontal_wall(ball_integrated(old(self)@.ball, dt as int))
                ==> old(self).ball.y_vel != i64::MIN,
        ensures
            final(self)@ == game_ticked(old(self)@, dt as int),
    {
        self.ball.x = self.ball.x + self.ball.x_vel * dt;
        self.ball.y = self.ball.y + self.ball.y_vel * dt;
        if (self.ball.y < BALL_RADIUS && self.ball.y_vel < 0) || (self.ball.y > WINDOW_HEIGHT
            - BALL_RADIUS && self.ball.y_vel > 0) {
            self.ball.y_vel = -self.ball.y_vel;
        }
        if self.ball.x > WINDOW_WIDTH || self.ball.x < 0 {
            self.ball.x = WINDOW_WIDTH / 2;
        }
    }

    /// A pointer-move event: the first player's paddle follows the vertical
    /// cursor position, clamped so its rectangle stays inside the playfield.
    /// The second paddle and the ball are untouched.
    pub fn on_pointer_move(&mut self, cursor_y: i64)
        ensures
            final(self)@ == game_pointer_moved(old(self)@, cursor_y as int),
    {
        self.player_1_paddle.y = cursor_y;
        if self.player_1_paddle.y > WINDOW_HEIGHT - PADDLE_CLAMP_HEIGHT {
            self.player_1_paddle.y = WINDOW_HEIGHT - PADDLE_CLAMP_HEIGHT;
        }
        if self.player_1_paddle.y < 0 {
            self.player_1_paddle.y = 0;
        }
    }
}

/// The game as it stands when the program starts.
pub open spec fn initial_game() -> GameModel {
    GameModel {
        player_1_paddle: PaddleModel {
            x: PLAYER_1_PADDLE_X as int,
            y: PADDLE_START_Y as int,
            width: PADDLE_WIDTH as int,
            height: PADDLE_HEIGHT as int,
        },
        player_2_paddle: PaddleModel {
            x: PLAYER_2_PADDLE_X as int,
            y: PADDLE_START_Y as int,
            width: PADDLE_WIDTH as int,
            height: PADDLE_HEIGHT as int,
        },
        ball: BallModel {
            x: BALL_START_X as int,
            y: BALL_START_Y as int,
            x_vel: BALL_START_X_VEL as int,
            y_vel: BALL_START_Y_VEL as int,
        },
    }
}

/// Builds the starting state: both paddles at their columns, the ball at the
/// centre of the playfield with its initial velocity.
pub fn init_game() -> (g: GameState)
    ensures
        g@ == initial_game(),
{
    GameState {
        player_1_paddle: Paddle::new(PLAYER_1_PADDLE_X, PADDLE_START_Y, PADDLE_WIDTH, PADDLE_HEIGHT),
        player_2_paddle: Paddle::new(PLAYER_2_PADDLE_X, PADDLE_START_Y, PADDLE_WIDTH, PADDLE_HEIGHT),
        ball: Ball::new(BALL_START_X, BALL_START_Y, BALL_START_X_VEL, BALL_START_Y_VEL),
    }
}

} // verus!
