use vstd::prelude::*;

verus! {

/// How far a standup record has come: which answer the user owes next.
#[derive(Clone, Copy, Debug, PartialEq, Eq, Structural)]
pub enum StandupState {
    /// Nothing recorded yet; the previous day's work is asked for first.
    PrevDay,
    /// The previous day is recorded; today's plan is next.
    Today,
    /// Today's plan is recorded; blockers are next.
    Blocker,
    /// All three answers are recorded.
    Complete,
}

} // verus!
