use xilem_bar::bar::{XilemBar, CLOCK_PERIOD};
use xilem_bar::clock::{clock_text, LocalTime};
use xilem_bar::shared::WorkerEvent;
use xilem_bar::theme::ThemeMode;

fn at(year: i32) -> LocalTime {
    LocalTime { year, month: 2, day: 3, hour: 4, minute: 5, second: 6 }
}

#[test]
fn a_time_is_written_in_full() {
    let time = LocalTime { year: 2024, month: 12, day: 31, hour: 23, minute: 59, second: 58 };
    assert_eq!(clock_text(&time, true), "2024-12-31 23:59:58");
    assert_eq!(clock_text(&time, false), "2024-12-31 23:59");
}

#[test]
fn numbers_are_padded_with_zeros() {
    assert_eq!(clock_text(&at(2005), true), "2005-02-03 04:05:06");
    assert_eq!(clock_text(&at(0), false), "0000-02-03 04:05");
    assert_eq!(clock_text(&at(7), false), "0007-02-03 04:05");
    assert_eq!(clock_text(&at(999), false), "0999-02-03 04:05");
    assert_eq!(clock_text(&at(1000), false), "1000-02-03 04:05");
}

#[test]
fn far_years_have_a_sign() {
    assert_eq!(clock_text(&at(-1), false), "-0001-02-03 04:05");
    assert_eq!(clock_text(&at(-9999), false), "-9999-02-03 04:05");
    assert_eq!(clock_text(&at(-10000), false), "-10000-02-03 04:05");
    assert_eq!(clock_text(&at(9999), false), "9999-02-03 04:05");
    assert_eq!(clock_text(&at(10000), false), "+10000-02-03 04:05");
    assert_eq!(clock_text(&at(262142), true), "+262142-02-03 04:05:06");
    assert_eq!(clock_text(&at(-262143), true), "-262143-02-03 04:05:06");
}

#[test]
fn leap_days_are_shown() {
    let time = LocalTime { year: 2000, month: 2, day: 29, hour: 0, minute: 0, second: 0 };
    assert_eq!(clock_text(&time, true), "2000-02-29 00:00:00");
}

#[test]
fn a_tick_shows_the_wall_clock() {
    let mut bar = XilemBar::new(ThemeMode::Dark, false, 0, 0);
    let before = chrono::Local::now().naive_local().format("%Y-%m-%d %H:%M:%S").to_string();
    bar.on_worker(WorkerEvent::Tick, CLOCK_PERIOD);
    let after = chrono::Local::now().naive_local().format("%Y-%m-%d %H:%M:%S").to_string();
    assert!(before <= bar.formated_now && bar.formated_now <= after);
    bar.press_time();
    bar.on_worker(WorkerEvent::Tick, 2 * CLOCK_PERIOD);
    assert_eq!(bar.formated_now.len(), 16);
}
