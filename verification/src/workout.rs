//! Chooses the exercise plan of the day from the requested intensity and a
//! random number, the way the workout-app examples do around their slow
//! simulated calculation (which hands its input back unchanged).

use vstd::prelude::*;

verus! {

/// What the app tells the user to do today.
#[derive(Debug, Clone, Copy, PartialEq, Eq, Structural)]
pub enum WorkoutPlan {
    /// Do this many pushups, then as many situps.
    PushupsAndSitups { count: u32 },
    /// Take a break and stay hydrated.
    Break,
    /// Run for this many minutes.
    Run { minutes: u32 },
}

/// A light session asks for pushups and situps; otherwise the random
/// number 3 grants a break, and anything else means a run. The counts are
/// the intensity itself, since the simulated expensive calculation returns
/// its input.
pub fn generate_workout(intensity: u32, random_number: u32) -> (r: WorkoutPlan)
    ensures
        r == (if intensity < 25 {
            WorkoutPlan::PushupsAndSitups { count: intensity }
        } else if random_number == 3 {
            WorkoutPlan::Break
        } else {
            WorkoutPlan::Run { minutes: intensity }
        }),
{
    if intensity < 25 {
        WorkoutPlan::PushupsAndSitups { count: intensity }
    } else if random_number == 3 {
        WorkoutPlan::Break
    } else {
        WorkoutPlan::Run { minutes: intensity }
    }
}

} // verus!
