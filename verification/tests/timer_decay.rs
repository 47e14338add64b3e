use chip8_core::timers::Timers;

#[test]
fn one_second_costs_sixty_ticks_however_sliced() {
    let mut t = Timers::new();
    t.delay = 200;
    t.sound = 100;
    for _ in 0..100 {
        t.update(10_000);
    }
    assert_eq!(t.delay, 140);
    assert_eq!(t.sound, 40);
}

#[test]
fn one_second_in_a_single_call_costs_the_same() {
    let mut t = Timers::new();
    t.delay = 200;
    t.update(1_000_000);
    assert_eq!(t.delay, 140);
}

#[test]
fn counters_saturate_at_zero() {
    let mut t = Timers::new();
    t.delay = 30;
    t.sound = 5;
    for _ in 0..1000 {
        t.update(1_000);
    }
    assert_eq!(t.delay, 0);
    assert_eq!(t.sound, 0);
}

#[test]
fn sub_period_elapses_are_accumulated_not_lost() {
    let mut t = Timers::new();
    t.delay = 10;
    for _ in 0..16 {
        t.update(1_000);
    }
    assert_eq!(t.delay, 10);
    t.update(1_000);
    assert_eq!(t.delay, 9);
}

#[test]
fn no_elapsed_time_means_no_decay() {
    let mut t = Timers::new();
    t.delay = 7;
    t.update(0);
    assert_eq!(t.delay, 7);
    assert_eq!(t.sound, 0);
}

#[test]
fn readers_report_current_counters() {
    let mut t = Timers::new();
    t.delay = 3;
    t.sound = 4;
    assert_eq!(t.delay_value(), 3);
    assert_eq!(t.sound_value(), 4);
}
