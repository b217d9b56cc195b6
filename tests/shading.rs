use raytracer::{ray_color, PathState, Radiance, Step};

/// Runs the estimator along a path whose rays hit the scene as `hits` says.
fn follow(depth: i32, hits: &[bool]) -> Radiance {
    let mut state = PathState::new(depth);
    let mut i = 0;
    loop {
        let hit = if state.spent() { false } else { hits[i] };
        match ray_color(state, hit) {
            Step::Done(light) => return light,
            Step::Bounce(next) => {
                state = next;
                i += 1;
            }
        }
    }
}

#[test]
fn zero_depth_is_black_for_any_ray() {
    assert_eq!(ray_color(PathState::new(0), true), Step::Done(Radiance::Black));
    assert_eq!(ray_color(PathState::new(0), false), Step::Done(Radiance::Black));
}

#[test]
fn negative_depth_is_black() {
    assert_eq!(ray_color(PathState::new(-3), false), Step::Done(Radiance::Black));
    assert_eq!(
        ray_color(PathState { depth: -1, bounces: 4 }, true),
        Step::Done(Radiance::Black)
    );
}

#[test]
fn first_miss_shows_unhalved_sky() {
    assert_eq!(ray_color(PathState::new(50), false), Step::Done(Radiance::Sky { halvings: 0 }));
}

#[test]
fn hit_costs_one_bounce() {
    assert_eq!(
        ray_color(PathState::new(50), true),
        Step::Bounce(PathState { depth: 49, bounces: 1 })
    );
    assert_eq!(
        ray_color(PathState { depth: 1, bounces: 7 }, true),
        Step::Bounce(PathState { depth: 0, bounces: 8 })
    );
}

#[test]
fn miss_after_bounces_is_halved_once_per_bounce() {
    assert_eq!(
        ray_color(PathState { depth: 47, bounces: 3 }, false),
        Step::Done(Radiance::Sky { halvings: 3 })
    );
    assert_eq!(follow(50, &[true, true, true, false]), Radiance::Sky { halvings: 3 });
}

#[test]
fn path_that_always_hits_runs_out_of_light() {
    assert_eq!(follow(50, &[true; 50]), Radiance::Black);
    assert_eq!(follow(1, &[true]), Radiance::Black);
}

#[test]
fn escape_on_last_allowed_ray() {
    let mut hits = vec![true; 49];
    hits.push(false);
    assert_eq!(follow(50, &hits), Radiance::Sky { halvings: 49 });
}

#[test]
fn new_path_and_spent_budget() {
    assert_eq!(PathState::new(50), PathState { depth: 50, bounces: 0 });
    assert!(!PathState::new(1).spent());
    assert!(PathState::new(0).spent());
    assert!(PathState::new(i32::MIN).spent());
}

#[test]
fn largest_budget_counts_without_overflow() {
    assert_eq!(
        ray_color(PathState { depth: 1, bounces: (i32::MAX - 1) as u32 }, true),
        Step::Bounce(PathState { depth: 0, bounces: (i32::MAX) as u32 })
    );
    assert_eq!(
        ray_color(PathState::new(i32::MAX), false),
        Step::Done(Radiance::Sky { halvings: 0 })
    );
}
