use escape_time::escape::{Run, Verdict, ESCAPE_BOUND_SQUARED, ITERATION_CAP};

#[test]
fn cap_is_256() {
    assert_eq!(ITERATION_CAP, 256);
}

#[test]
fn bound_is_32() {
    assert_eq!(ESCAPE_BOUND_SQUARED, 32);
}

#[test]
fn fresh_run_has_taken_no_step() {
    assert_eq!(Run::start().steps(), 0);
}

#[test]
fn orbit_inside_the_bound_takes_a_step() {
    let mut run = Run::start();
    assert_eq!(run.advance(false), Verdict::Iterate);
    assert_eq!(run.steps(), 1);
    assert_eq!(run.advance(false), Verdict::Iterate);
    assert_eq!(run.steps(), 2);
}

#[test]
fn escape_before_any_step_counts_no_step() {
    let mut run = Run::start();
    assert_eq!(run.advance(true), Verdict::Escaped { steps: 0 });
    assert_eq!(run.steps(), 0);
}

#[test]
fn escape_reports_the_steps_taken() {
    let mut run = Run::start();
    for _ in 0..17 {
        assert_eq!(run.advance(false), Verdict::Iterate);
    }
    assert_eq!(run.advance(true), Verdict::Escaped { steps: 17 });
    assert_eq!(run.steps(), 17);
}

#[test]
fn run_that_never_escapes_stops_at_the_cap() {
    let mut run = Run::start();
    let mut taken = 0;
    loop {
        match run.advance(false) {
            Verdict::Iterate => taken += 1,
            other => {
                assert_eq!(other, Verdict::Capped);
                break;
            }
        }
    }
    assert_eq!(taken, 256);
    assert_eq!(run.steps(), 256);
}

#[test]
fn last_step_before_the_cap_can_still_escape() {
    let mut run = Run::start();
    for _ in 0..255 {
        assert_eq!(run.advance(false), Verdict::Iterate);
    }
    assert_eq!(run.advance(true), Verdict::Escaped { steps: 255 });
}

#[test]
fn at_the_cap_the_run_is_capped_whatever_the_orbit_does() {
    let mut run = Run::start();
    for _ in 0..256 {
        assert_eq!(run.advance(false), Verdict::Iterate);
    }
    assert_eq!(run.advance(true), Verdict::Capped);
    assert_eq!(run.advance(false), Verdict::Capped);
    assert_eq!(run.steps(), 256);
}
