use xilem_bar::bar::{shared_path, TickStep, XilemBar, CLOCK_PERIOD, MONITOR_PERIOD};
use xilem_bar::color::{rgb, with_alpha};
use xilem_bar::shared::{CommandType, MonitorInfo, SharedCommand, SharedMessage, TagStatus, WorkerEvent};
use xilem_bar::theme::{Theme, ThemeMode};

const IDLE: TagStatus = TagStatus { is_selected: false, is_urg: false, is_filled: false, is_occ: false };

fn informed(bar: &mut XilemBar, monitor_num: i32, ltsymbol: &str, tags: Vec<TagStatus>) {
    let monitor_info = MonitorInfo { monitor_num, ltsymbol: ltsymbol.to_string(), tag_status_vec: tags };
    let next = bar.on_worker(WorkerEvent::Shared(SharedMessage { timestamp: 1, monitor_info }), 0);
    assert_eq!(next, TickStep::Done);
}

#[test]
fn the_last_argument_is_the_path() {
    let args = |list: &[&str]| list.iter().map(|s| s.to_string()).collect::<Vec<String>>();
    assert_eq!(shared_path(&args(&[])), "");
    assert_eq!(shared_path(&args(&["bar"])), "");
    assert_eq!(shared_path(&args(&["bar", "/dev/shm/a"])), "/dev/shm/a");
    assert_eq!(shared_path(&args(&["bar", "x", "/dev/shm/b"])), "/dev/shm/b");
}

#[test]
fn a_bar_starts_on_the_first_tag() {
    let bar = XilemBar::new(ThemeMode::Light, true, 17, 18);
    assert_eq!(bar.active_tab, 0);
    assert_eq!(bar.layout_symbol, "[]=");
    assert_eq!(bar.monitor_num, 0);
    assert_eq!(bar.formated_now, "");
    assert!(bar.show_seconds && !bar.layout_selector_open && bar.monitor_info_opt.is_none());
    assert_eq!(bar.theme, Theme::latte());
    assert_eq!(bar.tab_colors[8], rgb(0x00, 0xD2, 0xD3));
    assert_eq!((bar.last_clock_update, bar.last_monitor_update), (17, 18));
}

#[test]
fn toggling_the_theme_twice_changes_nothing() {
    let mut bar = XilemBar::new(ThemeMode::Dark, true, 0, 0);
    assert_eq!(bar.toggle_theme(), ThemeMode::Light);
    assert_eq!((bar.theme_mode, bar.theme), (ThemeMode::Light, Theme::latte()));
    assert_eq!(bar.toggle_theme(), ThemeMode::Dark);
    assert_eq!((bar.theme_mode, bar.theme), (ThemeMode::Dark, Theme::mocha()));
}

#[test]
fn a_tag_is_viewed_by_its_bit() {
    let mut bar = XilemBar::new(ThemeMode::Dark, true, 0, 0);
    informed(&mut bar, 3, "[M]", vec![IDLE; 9]);
    for index in 0..9 {
        let command = bar.press_tag(index);
        let expected = SharedCommand { command: CommandType::ViewTag, parameter: 1 << index, monitor_num: 3 };
        assert_eq!(command, Some(expected));
        assert_eq!(bar.active_tab, index);
    }
    let toggle = SharedCommand { command: CommandType::ToggleTag, parameter: 256, monitor_num: 3 };
    assert_eq!(bar.send_tag_command(false), Some(toggle));
}

#[test]
fn nothing_is_sent_without_a_buffer() {
    let mut bar = XilemBar::new(ThemeMode::Dark, false, 0, 0);
    assert_eq!(bar.press_tag(5), None);
    assert_eq!(bar.active_tab, 5);
    assert_eq!(bar.press_layout(1), None);
    assert_eq!(bar.send_layout_command(2), None);
}

#[test]
fn choosing_a_layout_closes_the_selector() {
    let mut bar = XilemBar::new(ThemeMode::Dark, true, 0, 0);
    bar.press_layout_toggle();
    assert!(bar.layout_selector_open);
    let expected = SharedCommand { command: CommandType::SetLayout, parameter: 2, monitor_num: 0 };
    assert_eq!(bar.press_layout(2), Some(expected));
    assert!(!bar.layout_selector_open);
    bar.press_layout_toggle();
    bar.press_layout_toggle();
    assert!(!bar.layout_selector_open);
}

#[test]
fn the_last_selected_tag_is_active() {
    let mut bar = XilemBar::new(ThemeMode::Dark, true, 0, 0);
    let selected = TagStatus { is_selected: true, ..IDLE };
    informed(&mut bar, -2, "><>", vec![IDLE, selected, IDLE, selected, IDLE]);
    assert_eq!(bar.active_tab, 3);
    assert_eq!(bar.layout_symbol, "><>");
    assert_eq!(bar.monitor_num, -2);
    informed(&mut bar, 1, "[M]", vec![IDLE; 9]);
    assert_eq!(bar.active_tab, 3);
    assert_eq!((bar.layout_symbol.as_str(), bar.monitor_num), ("[M]", 1));
}

#[test]
fn the_clock_is_throttled() {
    let mut bar = XilemBar::new(ThemeMode::Dark, true, 1_000, 1_000);
    assert_eq!(bar.on_worker(WorkerEvent::Tick, 0), TickStep::CheckMonitors);
    assert_eq!(bar.on_worker(WorkerEvent::Tick, 1_000 + CLOCK_PERIOD - 1), TickStep::CheckMonitors);
    assert_eq!(bar.formated_now, "");
    assert_eq!(bar.on_worker(WorkerEvent::Tick, 1_000 + CLOCK_PERIOD), TickStep::StampClock);
    assert_eq!(bar.formated_now.len(), 19);
    assert_eq!(bar.last_clock_update, 1_000);
    let read = 1_007 + CLOCK_PERIOD;
    assert_eq!(bar.continue_tick(TickStep::StampClock, read), TickStep::CheckMonitors);
    assert_eq!((bar.last_clock_update, bar.last_monitor_update), (read, 1_000));
    assert_eq!(bar.on_worker(WorkerEvent::Tick, read + CLOCK_PERIOD - 1), TickStep::CheckMonitors);
    assert_eq!(bar.on_worker(WorkerEvent::Tick, read + CLOCK_PERIOD), TickStep::StampClock);
}

#[test]
fn the_monitors_are_throttled() {
    let mut bar = XilemBar::new(ThemeMode::Dark, true, 1_000, 2_000);
    assert_eq!(bar.continue_tick(TickStep::CheckMonitors, 0), TickStep::Done);
    assert_eq!(bar.continue_tick(TickStep::CheckMonitors, 1_999 + MONITOR_PERIOD), TickStep::Done);
    assert_eq!(bar.continue_tick(TickStep::CheckMonitors, 2_000 + MONITOR_PERIOD), TickStep::RefreshMonitors);
    assert_eq!(bar.last_monitor_update, 2_000);
    let read = 2_500 + MONITOR_PERIOD;
    assert_eq!(bar.continue_tick(TickStep::RefreshMonitors, read), TickStep::Done);
    assert_eq!((bar.last_clock_update, bar.last_monitor_update), (1_000, read));
    assert_eq!(bar.continue_tick(TickStep::CheckMonitors, read + MONITOR_PERIOD - 1), TickStep::Done);
    assert_eq!(bar.continue_tick(TickStep::CheckMonitors, read + MONITOR_PERIOD), TickStep::RefreshMonitors);
    assert_eq!(bar.continue_tick(TickStep::Done, 0), TickStep::Done);
}

#[test]
fn a_tick_goes_step_by_step() {
    let mut bar = XilemBar::new(ThemeMode::Dark, true, 0, 0);
    let mut now = MONITOR_PERIOD;
    let mut steps = vec![bar.on_worker(WorkerEvent::Tick, now)];
    while steps[steps.len() - 1] != TickStep::Done {
        now += 10;
        let next = bar.continue_tick(steps[steps.len() - 1], now);
        steps.push(next);
    }
    let expected = [TickStep::StampClock, TickStep::CheckMonitors, TickStep::RefreshMonitors, TickStep::Done];
    assert_eq!(steps, expected);
    assert_eq!((bar.last_clock_update, bar.last_monitor_update), (MONITOR_PERIOD + 10, MONITOR_PERIOD + 30));
}

#[test]
fn an_error_changes_nothing() {
    let mut bar = XilemBar::new(ThemeMode::Dark, true, 0, 0);
    let before = format!("{bar:?}");
    let next = bar.on_worker(WorkerEvent::SharedError("gone".to_string()), 10 * MONITOR_PERIOD);
    assert_eq!(next, TickStep::Done);
    assert_eq!(format!("{bar:?}"), before);
}

#[test]
fn tags_look_by_their_most_pressing_status() {
    let mut bar = XilemBar::new(ThemeMode::Dark, true, 0, 0);
    let color = bar.tab_colors[0];
    let theme = bar.theme;
    assert_eq!(bar.tag_visuals(0), (theme.tag_inactive_bg, 10, with_alpha(color, 90)));
    let grey = with_alpha(rgb(0x66, 0x66, 0x66), 90);
    assert_eq!(bar.tag_visuals(9), (theme.tag_inactive_bg, 10, grey));
    assert!(!bar.is_tag_active(0));

    let mut status = IDLE;
    informed(&mut bar, 0, "", vec![status]);
    assert_eq!(bar.tag_visuals(0), (theme.tag_inactive_bg, 10, with_alpha(color, 90)));
    status.is_occ = true;
    informed(&mut bar, 0, "", vec![status]);
    assert_eq!(bar.tag_visuals(0), (with_alpha(color, 35), 10, with_alpha(color, 70)));
    assert!(!bar.is_tag_active(0));
    status.is_selected = true;
    informed(&mut bar, 0, "", vec![status]);
    assert_eq!(bar.tag_visuals(0), (with_alpha(color, 70), 15, color));
    assert!(bar.is_tag_active(0));
    status.is_filled = true;
    informed(&mut bar, 0, "", vec![status]);
    assert_eq!(bar.tag_visuals(0), (color, 20, color));
    status.is_urg = true;
    informed(&mut bar, 0, "", vec![status]);
    assert_eq!(bar.tag_visuals(0), (theme.urgent_bg, 20, theme.urgent_border));
    assert!(bar.is_tag_active(0) && !bar.is_tag_active(1));
}
