use corics_quest::async_utils::{wait_once, Nested, Poll, SharedMut, SharedStore, WaitTicks};
use corics_quest::driver::{Driver, FRAME_TIME, MAX_FRAME_STEPS};

#[test]
fn suspension_point_is_pending_then_ready() {
    let mut point = wait_once();
    assert!(!point.was_polled());
    assert!(matches!(point.poll(), Poll::Pending));
    assert!(point.was_polled());
    assert!(matches!(point.poll(), Poll::Ready(())));
}

#[test]
fn every_suspension_point_starts_fresh() {
    let mut first = wait_once();
    assert!(first.poll().is_pending());
    let mut second = wait_once();
    assert!(second.poll().is_pending());
    assert!(first.poll().is_ready());
    assert!(second.poll().is_ready());
}

#[test]
fn task_of_three_suspensions_is_ready_on_fourth_poll() {
    let mut task = WaitTicks::new(3);
    assert!(matches!(task.resume(), Poll::Pending));
    assert_eq!(task.ticks_left(), 2);
    assert!(matches!(task.resume(), Poll::Pending));
    assert!(matches!(task.resume(), Poll::Pending));
    assert_eq!(task.ticks_left(), 0);
    assert!(matches!(task.resume(), Poll::Ready(())));
}

#[test]
fn task_without_suspensions_is_ready_at_once() {
    let mut task = WaitTicks::new(0);
    assert!(matches!(task.resume(), Poll::Ready(())));
}

#[test]
fn driver_needs_a_step_and_a_limit() {
    assert!(Driver::new(0, 4).is_none());
    assert!(Driver::new(10, 0).is_none());
    assert!(Driver::new(u64::MAX, 2).is_none());
    assert!(Driver::new(10, 4).is_some());
}

#[test]
fn first_frame_polls_once() {
    let mut driver = Driver::new(10, 4).unwrap();
    let mut task = WaitTicks::new(100);
    let report = driver.update(12345, &mut task, &mut ());
    assert_eq!(report.polls, 1);
    assert!(report.output.is_none());
    assert_eq!(driver.banked_time(), 0);
    assert_eq!(driver.latest_frame(), Some(12345));
    assert_eq!(task.ticks_left(), 99);
}

#[test]
fn driver_polls_once_for_every_step_elapsed() {
    for k in 0..=4u64 {
        let mut driver = Driver::new(10, 4).unwrap();
        let mut task = WaitTicks::new(100);
        driver.update(1000, &mut task, &mut ());
        let report = driver.update(1000 + k * 10, &mut task, &mut ());
        assert_eq!(report.polls, k);
        assert_eq!(driver.banked_time(), 0);
        assert_eq!(task.ticks_left() as u64, 99 - k);
    }
}

#[test]
fn driver_caps_the_steps_it_catches_up() {
    let mut driver = Driver::new(10, 4).unwrap();
    let mut task = WaitTicks::new(100);
    driver.update(1000, &mut task, &mut ());
    let report = driver.update(1000 + 10 * 1000, &mut task, &mut ());
    assert_eq!(report.polls, 4);
    assert_eq!(driver.banked_time(), 0);
}

#[test]
fn driver_banks_what_is_less_than_a_step() {
    let mut driver = Driver::new(10, 4).unwrap();
    let mut task = WaitTicks::new(100);
    driver.update(1000, &mut task, &mut ());
    let report = driver.update(1007, &mut task, &mut ());
    assert_eq!(report.polls, 0);
    assert_eq!(driver.banked_time(), 7);
    let report = driver.update(1012, &mut task, &mut ());
    assert_eq!(report.polls, 1);
    assert_eq!(driver.banked_time(), 2);
    let report = driver.update(1035, &mut task, &mut ());
    assert_eq!(report.polls, 2);
    assert_eq!(driver.banked_time(), 5);
}

#[test]
fn clock_that_runs_backwards_adds_no_time() {
    let mut driver = Driver::new(10, 4).unwrap();
    let mut task = WaitTicks::new(100);
    driver.update(1000, &mut task, &mut ());
    let report = driver.update(500, &mut task, &mut ());
    assert_eq!(report.polls, 0);
    assert_eq!(driver.banked_time(), 0);
    assert_eq!(driver.latest_frame(), Some(500));
}

#[test]
fn driver_sees_completion_on_the_fourth_poll() {
    let mut driver = Driver::new(10, 4).unwrap();
    let mut task = WaitTicks::new(3);
    let mut now = 50;
    for _ in 0..3 {
        let report = driver.update(now, &mut task, &mut ());
        assert_eq!(report.polls, 1);
        assert!(report.output.is_none());
        assert!(!driver.is_finished());
        now += 10;
    }
    let report = driver.update(now, &mut task, &mut ());
    assert_eq!(report.polls, 1);
    assert_eq!(report.output, Some(()));
    assert!(driver.is_finished());
}

#[test]
fn driver_stops_polling_once_the_task_is_done() {
    let mut driver = Driver::new(10, 4).unwrap();
    let mut task = WaitTicks::new(1);
    driver.update(0, &mut task, &mut ());
    let report = driver.update(33, &mut task, &mut ());
    assert_eq!(report.polls, 1);
    assert_eq!(report.output, Some(()));
    // The two steps that are left are taken without a poll.
    assert_eq!(driver.banked_time(), 3);
    for now in [80, 81, 500] {
        let report = driver.update(now, &mut task, &mut ());
        assert_eq!(report.polls, 0);
        assert!(report.output.is_none());
        assert!(driver.is_finished());
        assert_eq!(driver.banked_time(), 3);
        assert_eq!(driver.latest_frame(), Some(now));
    }
}

#[test]
fn bank_holds_less_than_a_step_after_every_frame() {
    for ticks in [0u32, 1, 2, 3, 7] {
        let mut driver = Driver::new(10, 4).unwrap();
        let mut task = WaitTicks::new(ticks);
        let mut now = 0;
        for gap in [0u64, 3, 9, 10, 11, 25, 39, 40, 41, 1000, 7, 19, 20] {
            now += gap;
            driver.update(now, &mut task, &mut ());
            assert!(driver.banked_time() < 10);
        }
    }
}

#[test]
fn frame_without_a_step_polls_nothing() {
    let mut driver = Driver::new(10, 4).unwrap();
    let mut task = WaitTicks::new(5);
    driver.update(100, &mut task, &mut ());
    let left = task.ticks_left();
    let report = driver.update(104, &mut task, &mut ());
    assert_eq!(report.polls, 0);
    assert_eq!(task.ticks_left(), left);
    assert_eq!(driver.banked_time(), 4);
    let report = driver.update(109, &mut task, &mut ());
    assert_eq!(report.polls, 0);
    assert_eq!(driver.banked_time(), 9);
    let report = driver.update(110, &mut task, &mut ());
    assert_eq!(report.polls, 1);
    assert_eq!(driver.banked_time(), 0);
}

#[test]
fn wait_of_n_ticks_takes_n_frames_wherever_it_starts() {
    for n in [0u32, 1, 2, 5, 17] {
        let mut driver = Driver::new(10, 4).unwrap();
        let mut task = WaitTicks::new(n);
        let mut now = 7;
        let mut frames = 0;
        loop {
            let report = driver.update(now, &mut task, &mut ());
            assert_eq!(report.polls, 1);
            frames += 1;
            if report.output.is_some() {
                break;
            }
            now += 10;
        }
        assert_eq!(frames, n + 1);
    }
}

#[test]
fn game_driver_runs_at_sixty_steps_a_second() {
    let mut driver = Driver::for_game();
    let mut task = WaitTicks::new(1000);
    driver.update(1, &mut task, &mut ());
    let report = driver.update(1 + 1_000_000_000 / 20, &mut task, &mut ());
    assert_eq!(report.polls, 2);
    assert_eq!(driver.banked_time(), 50_000_000 - 2 * FRAME_TIME);
    let report = driver.update(10_000_000_000, &mut task, &mut ());
    assert_eq!(report.polls, MAX_FRAME_STEPS);
}

#[test]
fn value_written_through_one_handle_is_read_through_the_other() {
    let mut store: SharedStore<i32> = SharedStore::new();
    let first = SharedMut::new(&mut store, 5);
    let alias = SharedMut::clone(&first);
    assert_eq!(*alias.get(&store), 5);
    let previous = first.set(&mut store, 9);
    assert_eq!(previous, 5);
    assert_eq!(*alias.get(&store), 9);
    alias.set(&mut store, -3);
    assert_eq!(*first.get(&store), -3);
}

#[test]
fn handles_onto_other_cells_keep_their_values() {
    let mut store: SharedStore<String> = SharedStore::new();
    let a = SharedMut::new(&mut store, String::from("input"));
    let b = SharedMut::new(&mut store, String::from("fade"));
    assert_eq!(store.len(), 2);
    a.set(&mut store, String::from("latched"));
    assert_eq!(b.get(&store), "fade");
    assert_eq!(a.get(&store), "latched");
}

#[test]
fn nesting_adds_no_poll_and_takes_none_away() {
    for ticks in 0..5u32 {
        for depth in 0..6 {
            let mut task = Nested::new(ticks);
            for _ in 0..depth {
                task = task.wrap();
            }
            for _ in 0..ticks {
                assert!(matches!(task.resume(), Poll::Pending));
            }
            assert!(matches!(task.resume(), Poll::Ready(())));
        }
    }
}

#[test]
fn driver_sees_a_nested_wait_complete_on_the_fourth_poll() {
    let mut driver = Driver::new(10, 4).unwrap();
    let mut task = Nested::new(3).wrap().wrap().wrap();
    let mut now = 100;
    for _ in 0..3 {
        let report = driver.update(now, &mut task, &mut ());
        assert_eq!(report.polls, 1);
        assert!(report.output.is_none());
        assert!(!driver.is_finished());
        now += 10;
    }
    let report = driver.update(now, &mut task, &mut ());
    assert_eq!(report.polls, 1);
    assert_eq!(report.output, Some(()));
    assert!(driver.is_finished());
    let report = driver.update(now + 10, &mut task, &mut ());
    assert_eq!(report.polls, 0);
    assert!(report.output.is_none());
}

#[test]
fn catching_up_stops_at_the_poll_that_completes() {
    let mut driver = Driver::new(10, 4).unwrap();
    let mut task = Nested::new(2).wrap();
    let report = driver.update(0, &mut task, &mut ());
    assert_eq!(report.polls, 1);
    let report = driver.update(47, &mut task, &mut ());
    assert_eq!(report.polls, 2);
    assert_eq!(report.output, Some(()));
    assert_eq!(driver.banked_time(), 0);
}
