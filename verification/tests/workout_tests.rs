use memocache::workout::{WorkoutPlan, workout_plan};

#[test]
fn light_day_gets_pushups_and_situps() {
    let plan = workout_plan(10, 7);
    assert_eq!(plan, WorkoutPlan::Exercise { pushups: 10, situps: 10 });
}

#[test]
fn lucky_heavy_day_gets_a_rest() {
    let plan = workout_plan(30, 3);
    assert_eq!(plan, WorkoutPlan::Rest);
}

#[test]
fn heavy_day_gets_a_run() {
    let plan = workout_plan(30, 7);
    assert_eq!(plan, WorkoutPlan::Run { minutes: 30 });
}

#[test]
fn boundary_intensity_counts_as_heavy() {
    let plan = workout_plan(25, 0);
    assert_eq!(plan, WorkoutPlan::Run { minutes: 25 });
}
