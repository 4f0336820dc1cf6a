use endless_installer::animation::{Animation, Tick, POLL_INTERVAL_MS};

#[test]
fn cancellation_during_long_animation_is_prompt() {
    for cancel_at in [0u64, 1, 49, 50, 1234, 2500, 4999] {
        let mut a = Animation::new(5000, 10);
        let mut clock: u64 = 0;
        loop {
            match a.step(clock >= cancel_at) {
                Tick::Cancelled => break,
                Tick::Finished => panic!("finished despite cancellation"),
                Tick::Frame { sleep_ms, .. } => {
                    assert!(sleep_ms <= POLL_INTERVAL_MS);
                    clock += sleep_ms;
                }
            }
        }
        assert!(clock >= cancel_at);
        assert!(clock - cancel_at < 100);
        assert!(clock <= 5000);
    }
}

#[test]
fn uncancelled_animation_runs_its_duration() {
    let mut a = Animation::new(130, 4);
    let mut slept = Vec::new();
    let mut frames = Vec::new();
    loop {
        match a.step(false) {
            Tick::Frame { index, sleep_ms } => {
                frames.push(index);
                slept.push(sleep_ms);
            }
            Tick::Finished => break,
            Tick::Cancelled => panic!("not cancelled"),
        }
    }
    assert_eq!(slept, vec![50, 50, 30]);
    assert_eq!(frames, vec![0, 1, 2]);
    assert_eq!(a.step(false), Tick::Finished);
    assert_eq!(a.step(true), Tick::Cancelled);
}

#[test]
fn zero_duration_finishes_at_once() {
    let mut a = Animation::new(0, 1);
    assert_eq!(a.step(false), Tick::Finished);
}
