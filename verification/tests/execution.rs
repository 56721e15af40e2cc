use st7735_lcd::{Action, Execution, ST7735};

#[test]
fn run_hands_out_every_action_in_order() {
    let display = ST7735::new(true, false, 160, 128);
    let expected = display.set_pixel(1, 2, 3);
    let mut run = Execution::new(display.set_pixel(1, 2, 3));
    let mut performed = 0;
    while let Some(action) = run.pending() {
        assert_eq!(*action, expected[performed]);
        assert_eq!(run.result(), None);
        performed += 1;
        run.report(Ok(()));
    }
    assert_eq!(performed, expected.len());
    assert_eq!(run.result(), Some(Ok(())));
}

#[test]
fn run_stops_at_the_first_failure() {
    let display = ST7735::new(true, false, 160, 128);
    let mut run = Execution::new(display.hard_reset());
    assert_eq!(run.pending(), Some(&Action::ResetHigh));
    run.report(Ok(()));
    assert_eq!(run.pending(), Some(&Action::ResetLow));
    run.report(Err(()));
    assert_eq!(run.pending(), None);
    assert_eq!(run.result(), Some(Err(())));
}

#[test]
fn run_fails_when_the_first_action_fails() {
    let display = ST7735::new(true, false, 160, 128);
    let mut run = Execution::new(display.init());
    run.report(Err(()));
    assert_eq!(run.pending(), None);
    assert_eq!(run.result(), Some(Err(())));
}

#[test]
fn run_fails_when_the_last_action_fails() {
    let display = ST7735::new(true, false, 160, 128);
    let mut run = Execution::new(display.hard_reset());
    run.report(Ok(()));
    run.report(Ok(()));
    assert_eq!(run.result(), None);
    assert_eq!(run.pending(), Some(&Action::ResetHigh));
    run.report(Err(()));
    assert_eq!(run.result(), Some(Err(())));
}

#[test]
fn reports_after_the_end_change_nothing() {
    let display = ST7735::new(true, false, 160, 128);
    let mut run = Execution::new(display.hard_reset());
    run.report(Ok(()));
    run.report(Err(()));
    run.report(Ok(()));
    run.report(Ok(()));
    assert_eq!(run.pending(), None);
    assert_eq!(run.result(), Some(Err(())));

    let mut run = Execution::new(display.hard_reset());
    run.report(Ok(()));
    run.report(Ok(()));
    run.report(Ok(()));
    assert_eq!(run.result(), Some(Ok(())));
    run.report(Err(()));
    assert_eq!(run.pending(), None);
    assert_eq!(run.result(), Some(Ok(())));
}

#[test]
fn empty_plan_succeeds_at_once() {
    let run = Execution::new(Vec::new());
    assert_eq!(run.pending(), None);
    assert_eq!(run.result(), Some(Ok(())));
}

#[test]
fn run_succeeds_only_after_the_last_action() {
    let display = ST7735::new(false, true, 160, 128);
    let plan = display.init();
    let length = plan.len();
    assert_eq!(length, 62);
    let mut run = Execution::new(plan);
    for _ in 0..length {
        assert_eq!(run.result(), None);
        assert!(run.pending().is_some());
        run.report(Ok(()));
    }
    assert_eq!(run.result(), Some(Ok(())));
    assert_eq!(run.pending(), None);
}
