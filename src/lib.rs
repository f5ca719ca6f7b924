//! Daily standup records: the state machine that advances a record as a user
//! answers prompts, the text of the next prompt, and the stored record shapes.

pub mod models;
pub mod state;
pub mod time;

pub use models::{NewStandup, NewUser, Standup, StandupView, User};
pub use state::StandupState;
pub use time::Timestamp;
