//! Core engine for a one-night social-deduction card game.
//!
//! Each participant is secretly dealt a role card; some roles act during a
//! priority-ordered night phase that may inspect or swap cards, then all
//! participants vote, the most-voted participants die, and per-role win
//! conditions are evaluated.
//!
//! The engine itself is purely deterministic state: participants are indices
//! into the roster, and every decision an external participant makes during
//! the night (a chosen player, a yes/no answer, a center-card index) is handed
//! in as a plain value. The surrounding process performs the actual I/O and
//! delivers the reveal events the engine returns.

pub mod agent;
pub mod game;
pub mod playerinterface;
pub mod roles;
pub mod roletype;
