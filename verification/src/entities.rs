//! The entities the simulation owns: the ball, the two paddles, and the
//! score state with its displayed text.

pub mod ball;
pub mod paddle;
pub mod score;

pub use ball::Ball;
pub use paddle::Paddle;
pub use paddle::Side;
pub use score::ScoreBoard;
pub use score::ScoreError;
pub use score::ScoreText;
