use magnetron_core::get_physics_info;
use magnetron_core::lifecycle::{count_set, recorded_particles, update_particle_states, ParticleTracker};

#[test]
fn physics_info_names_the_engine() {
    assert_eq!(get_physics_info(), "Magnetron Core Physics Engine");
}

#[test]
fn count_set_counts_true_flags() {
    assert_eq!(count_set(&vec![]), 0);
    assert_eq!(count_set(&vec![true, false, true, true]), 3);
    assert_eq!(count_set(&vec![false, false]), 0);
}

#[test]
fn update_retires_and_collects() {
    // particle 0: reaches the anode; 1: falls onto the cathode; 2: keeps flying;
    // 3: already retired, its flags are ignored; 4: at both radii, the anode wins.
    let mut active = vec![true, true, true, false, true];
    let mut hit = vec![false, false, false, false, false];
    let at_anode = vec![true, false, false, true, true];
    let at_cathode = vec![false, true, false, true, true];
    let n = update_particle_states(&mut active, &mut hit, &at_anode, &at_cathode, 3);
    assert_eq!(active, vec![false, false, true, false, false]);
    assert_eq!(hit, vec![true, false, false, false, true]);
    assert_eq!(n, 1);
}

#[test]
fn cathode_capture_waits_for_step_three() {
    let at_anode = vec![false];
    let at_cathode = vec![true];
    for step in 0..=2usize {
        let mut active = vec![true];
        let mut hit = vec![false];
        let n = update_particle_states(&mut active, &mut hit, &at_anode, &at_cathode, step);
        assert_eq!(active, vec![true]);
        assert_eq!(n, 1);
    }
    let mut active = vec![true];
    let mut hit = vec![false];
    let n = update_particle_states(&mut active, &mut hit, &at_anode, &at_cathode, 3);
    assert_eq!(active, vec![false]);
    assert_eq!(hit, vec![false]);
    assert_eq!(n, 0);
}

#[test]
fn recorded_particles_are_in_flight_among_the_first() {
    assert_eq!(recorded_particles(&vec![true, false, true, true], 3), vec![0, 2]);
    assert_eq!(recorded_particles(&vec![true, true], 5), vec![0, 1]);
    assert_eq!(recorded_particles(&vec![true, true], 0), Vec::<usize>::new());
    assert_eq!(recorded_particles(&vec![], 4), Vec::<usize>::new());
}

#[test]
fn tracker_starts_with_all_in_flight() {
    let t = ParticleTracker::new(4);
    assert_eq!(t.active_states(), vec![true; 4]);
    assert_eq!(t.hit_count(), 0);
    assert_eq!(t.in_flight_count(), 4);
    assert_eq!(t.step_count(), 0);
    assert_eq!(t.num_particles(), 4);
}

#[test]
fn tracker_steps_capture_on_the_third_step() {
    let mut t = ParticleTracker::new(3);
    let at_anode = vec![false, false, false];
    let at_cathode = vec![true, false, false];
    // steps 1 and 2: the particle at the cathode stays in flight
    assert!(t.record_step(&at_anode, &at_cathode));
    assert!(t.record_step(&at_anode, &at_cathode));
    assert_eq!(t.active_states(), vec![true, true, true]);
    // step 3: it is retired, without counting as an anode hit
    assert!(t.record_step(&at_anode, &at_cathode));
    assert_eq!(t.active_states(), vec![false, true, true]);
    assert_eq!(t.hit_count(), 0);
    assert_eq!(t.step_count(), 3);
    // step 4: particle 1 reaches the anode, particle 2 as well
    assert!(!t.record_step(&vec![false, true, true], &vec![false, false, false]));
    assert_eq!(t.active_states(), vec![false, false, false]);
    assert_eq!(t.hit_count(), 2);
    assert_eq!(t.in_flight_count(), 0);
}

#[test]
fn tracker_hits_are_never_erased() {
    let mut t = ParticleTracker::new(2);
    assert!(t.record_step(&vec![true, false], &vec![false, false]));
    assert_eq!(t.hit_count(), 1);
    // a retired particle is not brought back by later events
    assert!(t.record_step(&vec![false, false], &vec![false, false]));
    assert_eq!(t.active_states(), vec![false, true]);
    assert_eq!(t.hit_count(), 1);
    assert!(t.hit_count() + t.in_flight_count() <= t.num_particles());
}
