use xilem_bar::bar::XilemBar;
use xilem_bar::gauge::Gauge;
use xilem_bar::icons::{
    ICON_BAT_CHG, ICON_BAT_FULL, ICON_BRIGHT, ICON_CPU, ICON_M0, ICON_MEM, ICON_MON, ICON_MOON, ICON_SHOT, ICON_SUN,
    ICON_TIME, ICON_VOL_HIGH, ICON_VOL_MUTE,
};
use xilem_bar::shared::{MonitorInfo, SharedMessage, TagStatus, WorkerEvent};
use xilem_bar::theme::{Theme, ThemeMode};
use xilem_bar::view::{
    app_logic, bar_order, brightness_pill_view, layout_options, press_brightness, press_volume, scale_pill_view,
    scroll_brightness, scroll_volume, theme_pill_view, volume_pill_view, workspace_row, workspace_tag, AudioDevice, Label,
    Part, Pill, PointerButton, Readings, SystemSnapshot, VolumeChange, SCALE,
};

fn gauge(number: f32) -> Gauge {
    Gauge { bits: number.to_bits(), text: format!("{number:.0}%") }
}

fn device(volume: i32, is_muted: bool) -> Option<AudioDevice> {
    Some(AudioDevice { name: "Master".to_string(), volume, is_muted })
}

fn assert_label(label: &Label, text: &str, color: xilem_bar::color::Color) {
    assert_eq!((label.text.as_str(), label.color), (text, color));
}

fn assert_pill(pill: &Pill, icon: &str, accent: xilem_bar::color::Color, text: &str, fg: xilem_bar::color::Color) {
    assert_label(&pill.icon, icon, accent);
    assert_label(&pill.value, text, fg);
}

#[test]
fn a_new_bar_shows_what_it_knows() {
    let bar = XilemBar::new(ThemeMode::Dark, true, 0, 0);
    let readings = Readings { snapshot: None, brightness: None, master_device: None };
    let view = app_logic(&bar, &readings);
    let theme = Theme::mocha();
    assert_eq!(view.background, theme.bar_bg);
    assert_eq!(view.tags.len(), 9);
    assert_label(&view.layout, "[]=", theme.orange);
    assert!(view.layout_options.is_none());
    assert_pill(&view.cpu, ICON_CPU, theme.green, "0%", theme.fg);
    assert_pill(&view.memory, ICON_MEM, theme.green, "0%", theme.fg);
    assert_pill(&view.battery, ICON_BAT_FULL, theme.red, "0%", theme.fg);
    assert_pill(&view.brightness, ICON_BRIGHT, theme.yellow, "--", theme.fg);
    assert_pill(&view.volume, ICON_VOL_MUTE, theme.subtle, "--", theme.fg);
    assert_label(&view.screenshot, ICON_SHOT, theme.pink);
    assert_label(&view.theme, ICON_SUN, theme.yellow);
    assert_pill(&view.time, ICON_TIME, theme.blue, "", theme.fg);
    assert_pill(&view.monitor, ICON_MON, theme.mauve, ICON_M0, theme.fg);
    assert_label(&view.scale, "s: 1.00", theme.subtle);
    assert_eq!(view.order, bar_order());
}

#[test]
fn parts_stand_in_order() {
    let expected = [
        Part::Tags, Part::Layout, Part::LayoutOptions, Part::Stretch, Part::Cpu, Part::Memory, Part::Battery,
        Part::Brightness, Part::Volume, Part::Screenshot, Part::Theme, Part::Time, Part::Monitor, Part::Scale,
    ];
    let order = bar_order();
    assert_eq!(order, expected);
    for (place, part) in order.iter().enumerate() {
        assert_eq!(order.iter().position(|other| other == part), Some(place));
    }
}

#[test]
fn turns_of_the_wheel() {
    assert_eq!((scroll_brightness(true), scroll_brightness(false)), (10, -10));
    let master = device(40, false);
    assert_eq!(scroll_volume(&master, true), Some(("Master".to_string(), VolumeChange::Adjust(5))));
    assert_eq!(scroll_volume(&master, false), Some(("Master".to_string(), VolumeChange::Adjust(-5))));
    assert_eq!(scroll_volume(&None, true), None);
    assert_eq!(scroll_volume(&None, false), None);
    assert_eq!(scroll_volume(&master, true), press_volume(&master, Some(PointerButton::Primary)));
    assert_eq!(scroll_volume(&master, false), press_volume(&master, Some(PointerButton::Secondary)));
}

#[test]
fn readings_are_shown() {
    let mut bar = XilemBar::new(ThemeMode::Light, true, 0, 0);
    bar.press_layout_toggle();
    let monitor_info = MonitorInfo { monitor_num: 2, ltsymbol: "[M]".to_string(), tag_status_vec: vec![] };
    bar.on_worker(WorkerEvent::Shared(SharedMessage { timestamp: 9, monitor_info }), 0);
    let snapshot = SystemSnapshot {
        cpu_average: gauge(61.0),
        memory_usage_percent: gauge(42.4),
        battery_percent: gauge(51.0),
        is_charging: true,
    };
    let readings = Readings {
        snapshot: Some(snapshot),
        brightness: Some(80),
        master_device: device(77, false),
    };
    let view = app_logic(&bar, &readings);
    let theme = Theme::latte();
    assert_label(&view.layout, "[M]", theme.green);
    assert_eq!(view.layout_options.map(|options| options.len()), Some(3));
    assert_pill(&view.cpu, ICON_CPU, theme.orange, "61%", theme.fg);
    assert_pill(&view.memory, ICON_MEM, theme.yellow, "42%", theme.fg);
    assert_pill(&view.battery, ICON_BAT_CHG, theme.green, "51%", theme.fg);
    assert_pill(&view.brightness, ICON_BRIGHT, theme.yellow, "80%", theme.fg);
    assert_pill(&view.volume, ICON_VOL_HIGH, theme.teal, "77%", theme.fg);
    assert_label(&view.theme, ICON_MOON, theme.mauve);
    assert_pill(&view.monitor, ICON_MON, theme.mauve, "M2", theme.fg);
}

#[test]
fn tags_carry_their_glyph_and_look() {
    let mut bar = XilemBar::new(ThemeMode::Dark, true, 0, 0);
    let idle = TagStatus { is_selected: false, is_urg: false, is_filled: false, is_occ: false };
    let filled = TagStatus { is_filled: true, ..idle };
    let monitor_info =
        MonitorInfo { monitor_num: 0, ltsymbol: String::new(), tag_status_vec: vec![idle, filled] };
    bar.on_worker(WorkerEvent::Shared(SharedMessage { timestamp: 9, monitor_info }), 0);
    let row = workspace_row(&bar);
    assert_eq!(row.len(), 9);
    assert_label(&row[0].label, "\u{F0A1E}", bar.theme.tag_inactive_text);
    assert_label(&row[1].label, "\u{F0239}", bar.theme.tag_active_text);
    assert_eq!((row[1].background, row[1].border_width, row[1].border_color), bar.tag_visuals(1));
    assert_label(&workspace_tag(&bar, 8).label, "\u{F0297}", bar.theme.tag_inactive_text);
}

#[test]
fn the_layout_in_use_is_marked() {
    let mut bar = XilemBar::new(ThemeMode::Dark, true, 0, 0);
    let theme = bar.theme;
    let options = layout_options(&bar);
    assert_label(&options[0].label, "[]=", theme.green);
    assert_label(&options[1].label, "><>", theme.blue);
    assert_label(&options[2].label, "[M]", theme.blue);
    assert_eq!((options[0].index, options[1].index, options[2].index), (0, 1, 2));
    bar.layout_symbol = "|||".to_string();
    assert!(layout_options(&bar).iter().all(|option| option.label.color == theme.blue));
}

#[test]
fn the_volume_is_kept_in_range() {
    let theme = Theme::mocha();
    assert_pill(&volume_pill_view(&theme, &device(130, false)), ICON_VOL_HIGH, theme.teal, "100%", theme.fg);
    assert_pill(&volume_pill_view(&theme, &device(-4, false)), ICON_VOL_MUTE, theme.teal, "0%", theme.fg);
    assert_pill(&volume_pill_view(&theme, &device(40, true)), ICON_VOL_MUTE, theme.subtle, "40%", theme.fg);
}

#[test]
fn presses_of_the_volume_pill() {
    let master = device(40, false);
    let name = || "Master".to_string();
    assert_eq!(press_volume(&master, Some(PointerButton::Primary)), Some((name(), VolumeChange::Adjust(5))));
    assert_eq!(press_volume(&master, Some(PointerButton::Secondary)), Some((name(), VolumeChange::Adjust(-5))));
    assert_eq!(press_volume(&master, Some(PointerButton::Auxiliary)), Some((name(), VolumeChange::ToggleMute)));
    assert_eq!(press_volume(&master, Some(PointerButton::Other)), Some((name(), VolumeChange::Adjust(5))));
    assert_eq!(press_volume(&master, None), Some((name(), VolumeChange::Adjust(5))));
    assert_eq!(press_volume(&None, Some(PointerButton::Primary)), None);
}

#[test]
fn presses_of_the_brightness_pill() {
    assert_eq!(press_brightness(Some(PointerButton::Primary)), 10);
    assert_eq!(press_brightness(Some(PointerButton::Secondary)), -10);
    assert_eq!(press_brightness(Some(PointerButton::Auxiliary)), 10);
    assert_eq!(press_brightness(None), 10);
    let theme = Theme::latte();
    assert_pill(&brightness_pill_view(&theme, Some(-7)), ICON_BRIGHT, theme.yellow, "-7%", theme.fg);
}

#[test]
fn the_theme_button_changes_with_every_press() {
    let mut bar = XilemBar::new(ThemeMode::Dark, false, 0, 0);
    assert_label(&theme_pill_view(&bar), ICON_SUN, Theme::mocha().yellow);
    bar.toggle_theme();
    assert_label(&theme_pill_view(&bar), ICON_MOON, Theme::latte().mauve);
}

#[test]
fn the_scale_has_a_prefix() {
    let theme = Theme::mocha();
    for hundredths in [0_u32, 5, 50, 99, 100, 105, 125, 150, 200, 1000, 12345] {
        let expected = format!("s: {:.2}", f64::from(hundredths) / 100.0);
        assert_label(&scale_pill_view(&theme, hundredths), &expected, theme.subtle);
    }
    assert_label(&scale_pill_view(&theme, u32::MAX), "s: 42949672.95", theme.subtle);
    assert_label(&scale_pill_view(&theme, SCALE), "s: 1.00", theme.subtle);
}
