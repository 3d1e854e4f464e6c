//! Core model of a small HTTP-request composer: a request state whose URL
//! and structured query-parameter table are kept in sync by the Parse and
//! Build passes, and the decision logic of dispatching one request.

pub mod dispatch;
pub mod encoding;
pub mod params;
pub mod state;
pub mod sync;
pub mod text;
