//! Session orchestration and protocol bridging for a console chess client:
//! whose move is expected, how moves travel between the operator, a remote
//! server and a local engine, and how each source's text is read.

pub mod board;
pub mod dispatch;
pub mod engine;
pub mod gameloop;
pub mod input;
pub mod moves;
pub mod session;
pub mod side;
pub mod text;
