use vstd::prelude::*;
use crate::cacher::Cacher;

verus! {

broadcast use vstd::std_specs::hash::group_hash_axioms;

/// A workout recommendation for one day.
#[derive(PartialEq, Eq, Structural, Debug)]
pub enum WorkoutPlan {
    Exercise { pushups: u32, situps: u32 },
    Rest,
    Run { minutes: u32 },
}

/// Picks the day's workout from the requested intensity and a random
/// number, caching the (notionally expensive) intensity calculation so that
/// it runs at most once: light days get pushups and situps, heavy days get
/// a run, unless the random number grants a rest.
pub fn workout_plan(intensity: u32, random_number: u32) -> (plan: WorkoutPlan)
    ensures
        intensity < 25 ==> plan == (WorkoutPlan::Exercise {
            pushups: intensity,
            situps: intensity,
        }),
        intensity >= 25 && random_number == 3 ==> plan == WorkoutPlan::Rest,
        intensity >= 25 && random_number != 3 ==> plan == (WorkoutPlan::Run {
            minutes: intensity,
        }),
{
    let expensive_closure = |n: u32| -> (r: u32)
        ensures
            r == n,
        { n };
    let mut cache = Cacher::new(expensive_closure);
    if intensity < 25 {
        let pushups = cache.value(intensity);
        let situps = cache.value(intensity);
        WorkoutPlan::Exercise { pushups, situps }
    } else if random_number == 3 {
        WorkoutPlan::Rest
    } else {
        WorkoutPlan::Run { minutes: cache.value(intensity) }
    }
}

} // verus!
