//! Activity classification and intervention engine for a desktop
//! focus-monitoring agent: a deviation-score state machine, a
//! window-visibility detector based on region occlusion, and the
//! session-lifecycle state machine that keeps local session state
//! consistent with an unreliable remote service.

pub mod activity;
pub mod region;
pub mod session;
pub mod state_engine;
pub mod text;
pub mod visibility;
