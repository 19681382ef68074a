//! The crash trigger: the answer is sent at once, and the process is made
//! to fail after a short delay so that its supervisor restarts it.
use vstd::prelude::*;
use vstd::string::*;

verus! {

/// Milliseconds between the answer and the deliberate fault.
pub const CRASH_DELAY_MS: u64 = 100;

/// The answer's text.
pub const CRASH_MESSAGE: &'static str = "Crashing in 100ms... watch your pod restart! 💥";

/// What to do on a crash request: answer with `message`, then fault after
/// `delay_ms` milliseconds.
#[derive(Debug)]
pub struct CrashPlan {
    pub message: String,
    pub delay_ms: u64,
}

/// The plan for a crash request.
pub fn crash_plan() -> (r: CrashPlan)
    ensures
        r.message@ == CRASH_MESSAGE@,
        r.delay_ms == CRASH_DELAY_MS,
{
    CrashPlan { message: String::from_str(CRASH_MESSAGE), delay_ms: CRASH_DELAY_MS }
}

} // verus!
