use control_core::ramp::{Pass, Ramp, RampStep, CYCLE_STEPS, FLOOR, PASS_STEPS, PERIOD, STEP_TICKS};

fn run(ramp: &mut Ramp, steps: usize) -> Vec<u32> {
    let mut duties = Vec::new();
    for _ in 0..steps {
        let step = ramp.step();
        assert_eq!(step.hold_ticks, 2500);
        duties.push(step.duty);
    }
    duties
}

#[test]
fn ramp_constants() {
    assert_eq!(PERIOD, 500);
    assert_eq!(FLOOR, 10);
    assert_eq!(STEP_TICKS, 2500);
    assert_eq!(PASS_STEPS, 490);
    assert_eq!(CYCLE_STEPS, 980);
}

#[test]
fn ramp_first_step_is_floor() {
    let mut ramp = Ramp::new();
    assert_eq!(ramp.pass(), Pass::Rising);
    assert_eq!(ramp.step(), RampStep { duty: 10, hold_ticks: 2500 });
    assert_eq!(ramp.step(), RampStep { duty: 11, hold_ticks: 2500 });
}

#[test]
fn ramp_rising_pass_is_10_to_499() {
    let mut ramp = Ramp::new();
    let duties = run(&mut ramp, 490);
    let expected: Vec<u32> = (10..500).collect();
    assert_eq!(duties, expected);
    assert_eq!(duties[0], 10);
    assert_eq!(duties[489], 499);
}

#[test]
fn ramp_falling_pass_is_490_down_to_1() {
    let mut ramp = Ramp::new();
    run(&mut ramp, 490);
    assert_eq!(ramp.pass(), Pass::Falling);
    let duties = run(&mut ramp, 490);
    let expected: Vec<u32> = (10..500).map(|i| 500 - i).collect();
    assert_eq!(duties, expected);
    assert_eq!(duties[0], 490);
    assert_eq!(duties[489], 1);
    assert_eq!(ramp.pass(), Pass::Rising);
}

#[test]
fn ramp_cycle_is_triangle_not_sawtooth() {
    let mut ramp = Ramp::new();
    let cycle = run(&mut ramp, 980);
    for k in 1..490 {
        assert!(cycle[k - 1] < cycle[k], "rising at step {}", k);
    }
    for k in 490..980 {
        assert!(cycle[k - 1] > cycle[k], "falling at step {}", k);
    }
}

#[test]
fn ramp_end_to_end_read_back() {
    // Read the comparator back after each write of one cycle.
    let mut ramp = Ramp::new();
    let cycle = run(&mut ramp, 980);

    let rising = &cycle[..490];
    let mut distinct_rising: Vec<u32> = rising.to_vec();
    distinct_rising.dedup();
    assert_eq!(distinct_rising.len(), 490);
    assert!(rising.windows(2).all(|w| w[0] < w[1]));

    let falling = &cycle[490..];
    assert_eq!(falling.len(), 490);
    let descents = falling.windows(2).filter(|w| w[0] > w[1]).count();
    assert_eq!(descents, 489);
    assert!(cycle[489] > cycle[490]);

    // Then the cycle repeats.
    let again = run(&mut ramp, 980);
    assert_eq!(again, cycle);
}

#[test]
fn ramp_never_writes_zero_or_period() {
    let mut ramp = Ramp::new();
    let duties = run(&mut ramp, 3 * 980);
    for duty in duties {
        assert_ne!(duty, 0);
        assert_ne!(duty, 500);
        assert!(duty >= 1 && duty <= 499);
    }
}

#[test]
fn ramp_extremes_are_499_and_1() {
    let mut ramp = Ramp::new();
    let cycle = run(&mut ramp, 980);
    assert_eq!(cycle.iter().copied().max(), Some(499));
    assert_eq!(cycle.iter().copied().min(), Some(1));
}

#[test]
fn ramp_mirror_duties_differ_off_midpoint() {
    let mut ramp = Ramp::new();
    let cycle = run(&mut ramp, 980);
    for d in 10usize..500 {
        let up = cycle[d - 10];
        let down = cycle[490 + d - 10];
        assert_eq!(up as usize, d);
        assert_eq!(down as usize, 500 - d);
        if d == 250 {
            assert_eq!(up, down);
        } else {
            assert_ne!(up, down);
        }
    }
}

#[test]
fn ramp_pass_follows_phase() {
    let mut ramp = Ramp::new();
    for k in 0..(2 * 980) {
        let expected = if k % 980 < 490 { Pass::Rising } else { Pass::Falling };
        assert_eq!(ramp.pass(), expected, "step {}", k);
        ramp.step();
    }
}

#[test]
fn ramp_successive_writes_differ() {
    let mut ramp = Ramp::new();
    let duties = run(&mut ramp, 3 * 980 + 1);
    for pair in duties.windows(2) {
        assert_ne!(pair[0], pair[1]);
    }
    // The turn at the top and the wrap at the bottom.
    assert_eq!(&duties[489..491], &[499, 490]);
    assert_eq!(&duties[979..981], &[1, 10]);
}
