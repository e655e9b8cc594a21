//! The four per-tick routines, in the order a tick runs them: the movement
//! integrator, the paddle controller, the collision resolver, the scoring
//! judge. The integrator and the controller may swap places; the resolver
//! needs both to have finished, and the judge needs the resolver's result.

pub mod ball;
pub mod collision;
pub mod paddle;
pub mod score;

pub use ball::BallSystem;
pub use collision::CollisionSystem;
pub use paddle::InputSnapshot;
pub use paddle::PaddleSystem;
pub use score::ScoreSystem;
