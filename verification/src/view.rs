//! What the bar shows, and what a press of each part of it asks for.
use vstd::prelude::*;
use vstd::string::*;

use crate::bar::{BarState, XilemBar, DEFAULT_LAYOUT};
use crate::clock::{reads_at, two_digits};
use crate::color::Color;
use crate::gauge::{
    battery_accent, battery_color, law_battery_color_by_bits, law_usage_color_by_bits, usage_accent,
    usage_color, Gauge, GaugeState,
};
use crate::icons::{
    law_glyphs_by_code_point, law_volume_glyph_goes_by_thirds,
    monitor_label, monitor_num_to_icon, tag_glyph, tag_icon, volume_glyph, volume_icon,
    ICON_BAT_CHG, ICON_BAT_FULL, ICON_BRIGHT, ICON_CPU, ICON_MEM, ICON_MON, ICON_MOON, ICON_SHOT,
    ICON_SUN, ICON_TIME, TAG_COUNT,
};
use crate::shared::{CommandType, MonitorState};
use crate::text::{
    decimal_text, digit_char, law_signed_decimal_spells_the_number, signed_decimal, spells,
};
use crate::theme::{other_mode, Theme, ThemeMode};

verus! {

/// The layout of windows that float freely.
pub const FLOATING_LAYOUT: &'static str = "><>";

/// The layout of one window at a time.
pub const MONOCLE_LAYOUT: &'static str = "[M]";

/// What is shown of a quantity that cannot be read.
pub const UNKNOWN: &'static str = "--";

/// The scale of the screen that the bar shows, in hundredths.
pub const SCALE: u32 = 100;

/// The program that takes a screenshot.
pub const SCREENSHOT_PROGRAM: &'static str = "flameshot";

/// The argument that makes it ask what to take.
pub const SCREENSHOT_ARGUMENT: &'static str = "gui";

/// A text in a colour.
#[derive(Debug)]
pub struct Label {
    pub text: String,
    pub color: Color,
}

/// The model of `Label`.
pub struct LabelState {
    pub text: Seq<char>,
    pub color: Color,
}

impl View for Label {
    type V = LabelState;

    open spec fn view(&self) -> LabelState {
        LabelState { text: self.text@, color: self.color }
    }
}

/// A glyph and what it stands for.
#[derive(Debug)]
pub struct Pill {
    pub icon: Label,
    pub value: Label,
}

/// The model of `Pill`.
pub struct PillState {
    pub icon: LabelState,
    pub value: LabelState,
}

impl View for Pill {
    type V = PillState;

    open spec fn view(&self) -> PillState {
        PillState { icon: self.icon@, value: self.value@ }
    }
}

/// The button of a workspace tag.
#[derive(Debug)]
pub struct TagButton {
    pub label: Label,
    pub background: Color,
    /// In tenths of a pixel.
    pub border_width: u32,
    pub border_color: Color,
}

/// The model of `TagButton`.
pub struct TagButtonState {
    pub label: LabelState,
    pub background: Color,
    pub border_width: u32,
    pub border_color: Color,
}

impl View for TagButton {
    type V = TagButtonState;

    open spec fn view(&self) -> TagButtonState {
        TagButtonState {
            label: self.label@,
            background: self.background,
            border_width: self.border_width,
            border_color: self.border_color,
        }
    }
}

/// The button of a layout.
#[derive(Debug)]
pub struct LayoutOption {
    pub label: Label,
    pub index: u32,
}

/// The model of `LayoutOption`.
pub struct LayoutOptionState {
    pub label: LabelState,
    pub index: int,
}

impl View for LayoutOption {
    type V = LayoutOptionState;

    open spec fn view(&self) -> LayoutOptionState {
        LayoutOptionState { label: self.label@, index: self.index as int }
    }
}

/// A reading of the system monitor.
#[derive(Debug)]
pub struct SystemSnapshot {
    pub cpu_average: Gauge,
    pub memory_usage_percent: Gauge,
    pub battery_percent: Gauge,
    pub is_charging: bool,
}

/// The model of `SystemSnapshot`.
pub struct SnapshotState {
    pub cpu_average: GaugeState,
    pub memory_usage_percent: GaugeState,
    pub battery_percent: GaugeState,
    pub is_charging: bool,
}

impl View for SystemSnapshot {
    type V = SnapshotState;

    open spec fn view(&self) -> SnapshotState {
        SnapshotState {
            cpu_average: self.cpu_average@,
            memory_usage_percent: self.memory_usage_percent@,
            battery_percent: self.battery_percent@,
            is_charging: self.is_charging,
        }
    }
}

/// The audio device that the bar controls.
#[derive(Debug)]
pub struct AudioDevice {
    pub name: String,
    pub volume: i32,
    pub is_muted: bool,
}

/// The model of `AudioDevice`.
pub struct DeviceState {
    pub name: Seq<char>,
    pub volume: int,
    pub is_muted: bool,
}

impl View for AudioDevice {
    type V = DeviceState;

    open spec fn view(&self) -> DeviceState {
        DeviceState { name: self.name@, volume: self.volume as int, is_muted: self.is_muted }
    }
}

/// What the monitors of the system say, as far as they say anything.
#[derive(Debug)]
pub struct Readings {
    pub snapshot: Option<SystemSnapshot>,
    /// The brightness of the screen in percent.
    pub brightness: Option<i64>,
    pub master_device: Option<AudioDevice>,
}

/// The model of `Readings`.
pub struct ReadingsState {
    pub snapshot: Option<SnapshotState>,
    pub brightness: Option<i64>,
    pub master_device: Option<DeviceState>,
}

impl View for Readings {
    type V = ReadingsState;

    open spec fn view(&self) -> ReadingsState {
        ReadingsState {
            snapshot: match self.snapshot {
                Some(snapshot) => Some(snapshot@),
                None => None,
            },
            brightness: self.brightness,
            master_device: match self.master_device {
                Some(device) => Some(device@),
                None => None,
            },
        }
    }
}

/// The button of a pointer that was pressed.
#[derive(Copy, Clone, PartialEq, Eq, Structural, Debug)]
pub enum PointerButton {
    Primary,
    Secondary,
    Auxiliary,
    Other,
}

/// What a press of the volume pill does to the audio device.
#[derive(Copy, Clone, PartialEq, Eq, Structural, Debug)]
pub enum VolumeChange {
    /// Change the volume by so many percent.
    Adjust(i32),
    ToggleMute,
}

/// A part of the bar.
#[derive(Copy, Clone, PartialEq, Eq, Structural, Debug)]
pub enum Part {
    Tags,
    Layout,
    /// The layout selector, which takes no room while it is closed.
    LayoutOptions,
    /// The room that is left over.
    Stretch,
    Cpu,
    Memory,
    Battery,
    Brightness,
    Volume,
    Screenshot,
    Theme,
    Time,
    Monitor,
    Scale,
}

/// The parts of the bar, from left to right.
pub open spec fn part_order() -> Seq<Part> {
    seq![
        Part::Tags,
        Part::Layout,
        Part::LayoutOptions,
        Part::Stretch,
        Part::Cpu,
        Part::Memory,
        Part::Battery,
        Part::Brightness,
        Part::Volume,
        Part::Screenshot,
        Part::Theme,
        Part::Time,
        Part::Monitor,
        Part::Scale,
    ]
}

/// All that the bar shows.
#[derive(Debug)]
pub struct BarView {
    pub background: Color,
    pub tags: Vec<TagButton>,
    pub layout: Label,
    pub layout_options: Option<Vec<LayoutOption>>,
    pub cpu: Pill,
    pub memory: Pill,
    pub battery: Pill,
    pub brightness: Pill,
    pub volume: Pill,
    pub screenshot: Label,
    pub theme: Label,
    pub time: Pill,
    pub monitor: Pill,
    pub scale: Label,
    /// The parts from left to right.
    pub order: Vec<Part>,
}

/// The model of `BarView`.
pub struct BarViewState {
    pub background: Color,
    pub tags: Seq<TagButtonState>,
    pub layout: LabelState,
    pub layout_options: Option<Seq<LayoutOptionState>>,
    pub cpu: PillState,
    pub memory: PillState,
    pub battery: PillState,
    pub brightness: PillState,
    pub volume: PillState,
    pub screenshot: LabelState,
    pub theme: LabelState,
    pub time: PillState,
    pub monitor: PillState,
    pub scale: LabelState,
    pub order: Seq<Part>,
}

/// The models of some tag buttons.
pub open spec fn tag_states(tags: Seq<TagButton>) -> Seq<TagButtonState> {
    Seq::new(tags.len(), |i: int| tags[i]@)
}

/// The models of some layout options.
pub open spec fn option_states(options: Seq<LayoutOption>) -> Seq<LayoutOptionState> {
    Seq::new(options.len(), |i: int| options[i]@)
}

impl View for BarView {
    type V = BarViewState;

    open spec fn view(&self) -> BarViewState {
        BarViewState {
            background: self.background,
            tags: tag_states(self.tags@),
            layout: self.layout@,
            layout_options: match self.layout_options {
                Some(options) => Some(option_states(options@)),
                None => None,
            },
            cpu: self.cpu@,
            memory: self.memory@,
            battery: self.battery@,
            brightness: self.brightness@,
            volume: self.volume@,
            screenshot: self.screenshot@,
            theme: self.theme@,
            time: self.time@,
            monitor: self.monitor@,
            scale: self.scale@,
            order: self.order@,
        }
    }
}

/// The label with the given text and colour.
pub open spec fn label(text: Seq<char>, color: Color) -> LabelState {
    LabelState { text, color }
}

/// The pill with the given glyph and text, each in its colour.
pub open spec fn pill(icon: Seq<char>, accent: Color, text: Seq<char>, color: Color) -> PillState {
    PillState { icon: label(icon, accent), value: label(text, color) }
}

/// The button of a tag: the glyph of the tag, in the colour of active tags or of the others.
pub open spec fn tag_button(bar: BarState, index: int) -> TagButtonState {
    let (background, border_width, border_color) = bar.visuals(index);
    TagButtonState {
        label: label(
            tag_glyph(index),
            if bar.tag_active(index) {
                bar.theme.tag_active_text
            } else {
                bar.theme.tag_inactive_text
            },
        ),
        background,
        border_width,
        border_color,
    }
}

/// The buttons of all tags.
pub open spec fn tag_buttons(bar: BarState) -> Seq<TagButtonState> {
    Seq::new(TAG_COUNT as nat, |i: int| tag_button(bar, i))
}

/// The button that opens the layout selector: the symbol of the layout, green while it is open.
pub open spec fn layout_label(bar: BarState) -> LabelState {
    label(
        bar.layout_symbol,
        if bar.layout_selector_open {
            bar.theme.green
        } else {
            bar.theme.orange
        },
    )
}

/// The button of a layout, green for the one that is in use.
pub open spec fn layout_choice(bar: BarState, symbol: Seq<char>, index: int) -> LayoutOptionState {
    LayoutOptionState {
        label: label(
            symbol,
            if symbol == bar.layout_symbol {
                bar.theme.green
            } else {
                bar.theme.blue
            },
        ),
        index,
    }
}

/// The buttons of the layout selector.
pub open spec fn layout_choices(bar: BarState) -> Seq<LayoutOptionState> {
    seq![
        layout_choice(bar, DEFAULT_LAYOUT@, 0),
        layout_choice(bar, FLOATING_LAYOUT@, 1),
        layout_choice(bar, MONOCLE_LAYOUT@, 2),
    ]
}

/// The reading that stands in for one that is missing.
pub open spec fn zero_percent() -> GaugeState {
    GaugeState { bits: 0, text: "0%"@ }
}

/// The pill of a load.
pub open spec fn usage_pill(theme: Theme, icon: Seq<char>, usage: GaugeState) -> PillState {
    pill(icon, usage_accent(theme, usage.bits), usage.text, theme.fg)
}

/// The pill of the battery.
pub open spec fn battery_pill(theme: Theme, charge: GaugeState, is_charging: bool) -> PillState {
    pill(
        if is_charging {
            ICON_BAT_CHG@
        } else {
            ICON_BAT_FULL@
        },
        battery_accent(theme, charge.bits),
        charge.text,
        theme.fg,
    )
}

/// A number of percent.
pub open spec fn percent(n: int) -> Seq<char> {
    signed_decimal(n).push('%')
}

/// The pill of the brightness.
pub open spec fn brightness_pill(theme: Theme, brightness: Option<i64>) -> PillState {
    pill(
        ICON_BRIGHT@,
        theme.yellow,
        match brightness {
            Some(p) => percent(p as int),
            None => UNKNOWN@,
        },
        theme.fg,
    )
}

/// A volume brought into the range from 0 to 100.
pub open spec fn clamped(volume: int) -> int {
    if volume < 0 {
        0
    } else if volume > 100 {
        100
    } else {
        volume
    }
}

/// The pill of the volume.
pub open spec fn volume_pill(theme: Theme, device: Option<DeviceState>) -> PillState {
    match device {
        Some(device) => pill(
            volume_glyph(clamped(device.volume), device.is_muted, true),
            if device.is_muted {
                theme.subtle
            } else {
                theme.teal
            },
            percent(clamped(device.volume)),
            theme.fg,
        ),
        None => pill(volume_glyph(0, true, false), theme.subtle, UNKNOWN@, theme.fg),
    }
}

/// The button of the theme: the glyph of the mode that a press leads to.
pub open spec fn theme_label(bar: BarState) -> LabelState {
    match other_mode(bar.theme_mode) {
        ThemeMode::Light => label(ICON_SUN@, bar.theme.yellow),
        ThemeMode::Dark => label(ICON_MOON@, bar.theme.mauve),
    }
}

/// The number of the monitor, zero before the window manager has sent one.
pub open spec fn shown_monitor(bar: BarState) -> int {
    match bar.monitor {
        Some(monitor) => monitor.monitor_num,
        None => 0,
    }
}

/// A scale given in hundredths, as a number with two decimals.
pub open spec fn scale_text(hundredths: int) -> Seq<char> {
    "s: "@ + signed_decimal(hundredths / 100) + seq!['.'] + two_digits(hundredths % 100)
}

/// All that the bar shows.
pub open spec fn picture(bar: BarState, readings: ReadingsState) -> BarViewState {
    let theme = bar.theme;
    BarViewState {
        background: theme.bar_bg,
        tags: tag_buttons(bar),
        layout: layout_label(bar),
        layout_options: if bar.layout_selector_open {
            Some(layout_choices(bar))
        } else {
            None
        },
        cpu: usage_pill(
            theme,
            ICON_CPU@,
            match readings.snapshot {
                Some(snapshot) => snapshot.cpu_average,
                None => zero_percent(),
            },
        ),
        memory: usage_pill(
            theme,
            ICON_MEM@,
            match readings.snapshot {
                Some(snapshot) => snapshot.memory_usage_percent,
                None => zero_percent(),
            },
        ),
        battery: match readings.snapshot {
            Some(snapshot) => battery_pill(theme, snapshot.battery_percent, snapshot.is_charging),
            None => battery_pill(theme, zero_percent(), false),
        },
        brightness: brightness_pill(theme, readings.brightness),
        volume: volume_pill(theme, readings.master_device),
        screenshot: label(ICON_SHOT@, theme.pink),
        theme: theme_label(bar),
        time: pill(ICON_TIME@, theme.blue, bar.formated_now, theme.fg),
        monitor: pill(ICON_MON@, theme.mauve, monitor_label(shown_monitor(bar)), theme.fg),
        scale: label(scale_text(SCALE as int), theme.subtle),
        order: part_order(),
    }
}

/// The button of a workspace tag.
pub fn workspace_tag(bar: &XilemBar, index: usize) -> (button: TagButton)
    requires
        index < TAG_COUNT,
    ensures
        button@ == tag_button(bar@, index as int),
{
    let (background, border_width, border_color) = bar.tag_visuals(index);
    let color = if bar.is_tag_active(index) {
        bar.theme.tag_active_text
    } else {
        bar.theme.tag_inactive_text
    };
    TagButton {
        label: Label { text: tag_icon(index).to_owned(), color },
        background,
        border_width,
        border_color,
    }
}

/// The buttons of all workspace tags.
pub fn workspace_row(bar: &XilemBar) -> (row: Vec<TagButton>)
    ensures
        tag_states(row@) == tag_buttons(bar@),
{
    let mut row: Vec<TagButton> = Vec::new();
    let mut index: usize = 0;
    while index < TAG_COUNT
        invariant
            index <= TAG_COUNT,
            row@.len() == index,
            forall|i: int| 0 <= i < index ==> (#[trigger] row@[i])@ == tag_button(bar@, i),
        decreases TAG_COUNT - index,
    {
        row.push(workspace_tag(bar, index));
        index = index + 1;
    }
    assert(tag_states(row@) =~= tag_buttons(bar@));
    row
}

/// The button that opens the layout selector.
pub fn layout_toggle(bar: &XilemBar) -> (button: Label)
    ensures
        button@ == layout_label(bar@),
{
    let color = if bar.layout_selector_open {
        bar.theme.green
    } else {
        bar.theme.orange
    };
    Label { text: bar.layout_symbol.clone(), color }
}

fn layout_option(bar: &XilemBar, symbol: &'static str, index: u32) -> (option: LayoutOption)
    ensures
        option@ == layout_choice(bar@, symbol@, index as int),
{
    let text = symbol.to_owned();
    let color = if text == bar.layout_symbol {
        bar.theme.green
    } else {
        bar.theme.blue
    };
    LayoutOption { label: Label { text, color }, index }
}

/// The buttons of the layout selector.
pub fn layout_options(bar: &XilemBar) -> (options: Vec<LayoutOption>)
    ensures
        option_states(options@) == layout_choices(bar@),
{
    let mut options: Vec<LayoutOption> = Vec::new();
    options.push(layout_option(bar, DEFAULT_LAYOUT, 0));
    options.push(layout_option(bar, FLOATING_LAYOUT, 1));
    options.push(layout_option(bar, MONOCLE_LAYOUT, 2));
    assert(option_states(options@) =~= layout_choices(bar@));
    options
}

/// The pill of the load of the processor or the memory.
pub fn usage_pill_view(theme: &Theme, icon: &'static str, usage: &Gauge) -> (view: Pill)
    ensures
        view@ == usage_pill(*theme, icon@, usage@),
{
    Pill {
        icon: Label { text: icon.to_owned(), color: usage_color(theme, usage.bits) },
        value: Label { text: usage.text.clone(), color: theme.fg },
    }
}

/// The pill of the battery, empty and not charging where there is no reading.
pub fn battery_pill_view(theme: &Theme, snapshot: &Option<SystemSnapshot>) -> (view: Pill)
    ensures
        view@ == match *snapshot {
            Some(snapshot) => battery_pill(
                *theme,
                snapshot.battery_percent@,
                snapshot.is_charging,
            ),
            None => battery_pill(*theme, zero_percent(), false),
        },
{
    let (charge, text, charging) = match snapshot {
        Some(snapshot) => (
            snapshot.battery_percent.bits,
            snapshot.battery_percent.text.clone(),
            snapshot.is_charging,
        ),
        None => (0u32, "0%".to_owned(), false),
    };
    let icon = if charging {
        ICON_BAT_CHG
    } else {
        ICON_BAT_FULL
    };
    Pill {
        icon: Label { text: icon.to_owned(), color: battery_color(theme, charge) },
        value: Label { text, color: theme.fg },
    }
}

fn percent_text(n: i64) -> (text: String)
    ensures
        text@ == percent(n as int),
{
    proof {
        reveal_strlit("%");
    }
    let mut text = decimal_text(n);
    text.append("%");
    assert(text@ =~= percent(n as int));
    text
}

/// The pill of the brightness.
pub fn brightness_pill_view(theme: &Theme, brightness: Option<i64>) -> (view: Pill)
    ensures
        view@ == brightness_pill(*theme, brightness),
{
    let text = match brightness {
        Some(p) => percent_text(p),
        None => UNKNOWN.to_owned(),
    };
    Pill {
        icon: Label { text: ICON_BRIGHT.to_owned(), color: theme.yellow },
        value: Label { text, color: theme.fg },
    }
}

/// By how many percent a press of the brightness pill changes the brightness: the secondary
/// button dims, every other one brightens.
pub open spec fn brightness_change(button: Option<PointerButton>) -> int {
    if button == Some(PointerButton::Secondary) {
        -10
    } else {
        10
    }
}

/// By how many percent a press of the brightness pill changes the brightness.
pub fn press_brightness(button: Option<PointerButton>) -> (delta: i32)
    ensures
        delta == brightness_change(button),
{
    match button {
        Some(PointerButton::Secondary) => -10,
        _ => 10,
    }
}

/// By how many percent a turn of the wheel over the brightness pill changes the brightness: by as
/// much as a press, up or down.
pub open spec fn brightness_scroll(up: bool) -> int {
    if up {
        10
    } else {
        -10
    }
}

/// By how many percent a turn of the wheel over the brightness pill changes the brightness.
pub fn scroll_brightness(up: bool) -> (delta: i32)
    ensures
        delta == brightness_scroll(up),
{
    if up {
        10
    } else {
        -10
    }
}

/// The pill of the volume.
pub fn volume_pill_view(theme: &Theme, device: &Option<AudioDevice>) -> (view: Pill)
    ensures
        view@ == volume_pill(
            *theme,
            match *device {
                Some(device) => Some(device@),
                None => None,
            },
        ),
{
    let (volume, muted, has_device) = match device {
        Some(device) => {
            let volume: i32 = if device.volume < 0 {
                0
            } else if device.volume > 100 {
                100
            } else {
                device.volume
            };
            (volume, device.is_muted, true)
        },
        None => (0i32, true, false),
    };
    let text = if has_device {
        percent_text(volume as i64)
    } else {
        UNKNOWN.to_owned()
    };
    let accent = if muted || !has_device {
        theme.subtle
    } else {
        theme.teal
    };
    Pill {
        icon: Label { text: volume_icon(volume, muted, has_device).to_owned(), color: accent },
        value: Label { text, color: theme.fg },
    }
}

/// What a press of the volume pill does to the audio device: the secondary button turns it down,
/// the auxiliary one mutes it or unmutes it, every other one turns it up. Without a device there
/// is nothing to do.
pub open spec fn volume_change(has_device: bool, button: Option<PointerButton>) -> Option<
    VolumeChange,
> {
    if !has_device {
        None
    } else if button == Some(PointerButton::Secondary) {
        Some(VolumeChange::Adjust((-5) as i32))
    } else if button == Some(PointerButton::Auxiliary) {
        Some(VolumeChange::ToggleMute)
    } else {
        Some(VolumeChange::Adjust(5))
    }
}

/// What a press of the volume pill does, and to which audio device.
pub fn press_volume(device: &Option<AudioDevice>, button: Option<PointerButton>) -> (result: Option<
    (String, VolumeChange),
>)
    ensures
        match (result, *device) {
            (Some((name, change)), Some(device)) => name@ == device.name@ && Some(change)
                == volume_change(true, button),
            (None, None) => true,
            _ => false,
        },
{
    match device {
        Some(device) => {
            let change = match button {
                Some(PointerButton::Secondary) => VolumeChange::Adjust(-5),
                Some(PointerButton::Auxiliary) => VolumeChange::ToggleMute,
                _ => VolumeChange::Adjust(5),
            };
            Some((device.name.clone(), change))
        },
        None => None,
    }
}

/// What a turn of the wheel over the volume pill does to the audio device: it changes the volume by
/// as much as a press, up or down. Without a device there is nothing to do.
pub open spec fn volume_scroll(has_device: bool, up: bool) -> Option<VolumeChange> {
    if !has_device {
        None
    } else if up {
        Some(VolumeChange::Adjust(5))
    } else {
        Some(VolumeChange::Adjust((-5) as i32))
    }
}

/// What a turn of the wheel over the volume pill does, and to which audio device.
pub fn scroll_volume(device: &Option<AudioDevice>, up: bool) -> (result: Option<
    (String, VolumeChange),
>)
    ensures
        match (result, *device) {
            (Some((name, change)), Some(device)) => name@ == device.name@ && Some(change)
                == volume_scroll(true, up),
            (None, None) => true,
            _ => false,
        },
{
    match device {
        Some(device) => {
            let change = if up {
                VolumeChange::Adjust(5)
            } else {
                VolumeChange::Adjust(-5)
            };
            Some((device.name.clone(), change))
        },
        None => None,
    }
}

/// The button that takes a screenshot.
pub fn screenshot_pill_view(theme: &Theme) -> (view: Label)
    ensures
        view@ == label(ICON_SHOT@, theme.pink),
{
    Label { text: ICON_SHOT.to_owned(), color: theme.pink }
}

/// The button that swaps the theme.
pub fn theme_pill_view(bar: &XilemBar) -> (view: Label)
    ensures
        view@ == theme_label(bar@),
{
    match bar.theme_mode {
        ThemeMode::Dark => Label { text: ICON_SUN.to_owned(), color: bar.theme.yellow },
        ThemeMode::Light => Label { text: ICON_MOON.to_owned(), color: bar.theme.mauve },
    }
}

/// The pill of the time.
pub fn time_pill_view(bar: &XilemBar) -> (view: Pill)
    ensures
        view@ == pill(ICON_TIME@, bar@.theme.blue, bar@.formated_now, bar@.theme.fg),
{
    Pill {
        icon: Label { text: ICON_TIME.to_owned(), color: bar.theme.blue },
        value: Label { text: bar.formated_now.clone(), color: bar.theme.fg },
    }
}

/// The pill of the monitor.
pub fn monitor_pill_view(theme: &Theme, monitor_num: i32) -> (view: Pill)
    ensures
        view@ == pill(ICON_MON@, theme.mauve, monitor_label(monitor_num as int), theme.fg),
{
    Pill {
        icon: Label { text: ICON_MON.to_owned(), color: theme.mauve },
        value: Label { text: monitor_num_to_icon(monitor_num), color: theme.fg },
    }
}

/// The scale of the screen, given in hundredths.
pub fn scale_pill_view(theme: &Theme, hundredths: u32) -> (view: Label)
    ensures
        view@ == label(scale_text(hundredths as int), theme.subtle),
{
    let mut text = "s: ".to_owned();
    text.append(decimal_text((hundredths / 100) as i64).as_str());
    text.append(".");
    text.append(decimal_text((hundredths / 10 % 10) as i64).as_str());
    text.append(decimal_text((hundredths % 10) as i64).as_str());
    proof {
        reveal_strlit(".");
        assert(text@ =~= scale_text(hundredths as int));
    }
    Label { text, color: theme.subtle }
}

/// The parts of the bar, from left to right.
pub fn bar_order() -> (order: Vec<Part>)
    ensures
        order@ == part_order(),
{
    let mut order: Vec<Part> = Vec::new();
    order.push(Part::Tags);
    order.push(Part::Layout);
    order.push(Part::LayoutOptions);
    order.push(Part::Stretch);
    order.push(Part::Cpu);
    order.push(Part::Memory);
    order.push(Part::Battery);
    order.push(Part::Brightness);
    order.push(Part::Volume);
    order.push(Part::Screenshot);
    order.push(Part::Theme);
    order.push(Part::Time);
    order.push(Part::Monitor);
    order.push(Part::Scale);
    assert(order@ =~= part_order());
    order
}

/// All that the bar shows.
pub fn app_logic(bar: &XilemBar, readings: &Readings) -> (view: BarView)
    ensures
        view@ == picture(bar@, readings@),
{
    let theme = bar.theme;
    let missing = Gauge { bits: 0, text: "0%".to_owned() };
    let (cpu, memory) = match &readings.snapshot {
        Some(snapshot) => (&snapshot.cpu_average, &snapshot.memory_usage_percent),
        None => (&missing, &missing),
    };
    let monitor_num: i32 = match &bar.monitor_info_opt {
        Some(monitor) => monitor.monitor_num,
        None => 0,
    };
    let options = if bar.layout_selector_open {
        Some(layout_options(bar))
    } else {
        None
    };
    BarView {
        background: theme.bar_bg,
        tags: workspace_row(bar),
        layout: layout_toggle(bar),
        layout_options: options,
        cpu: usage_pill_view(&theme, ICON_CPU, cpu),
        memory: usage_pill_view(&theme, ICON_MEM, memory),
        battery: battery_pill_view(&theme, &readings.snapshot),
        brightness: brightness_pill_view(&theme, readings.brightness),
        volume: volume_pill_view(&theme, &readings.master_device),
        screenshot: screenshot_pill_view(&theme),
        theme: theme_pill_view(bar),
        time: time_pill_view(bar),
        monitor: monitor_pill_view(&theme, monitor_num),
        scale: scale_pill_view(&theme, SCALE),
        order: bar_order(),
    }
}

/// The secondary button asks for the opposite of every other button, on the brightness and, but
/// for the button that mutes, on the volume.
pub proof fn law_secondary_button_is_the_opposite(button: Option<PointerButton>)
    requires
        button != Some(PointerButton::Secondary),
    ensures
        brightness_change(Some(PointerButton::Secondary)) == -brightness_change(button),
        button != Some(PointerButton::Auxiliary) ==> {
            &&& volume_change(true, button) matches Some(VolumeChange::Adjust(up))
            &&& volume_change(true, Some(PointerButton::Secondary)) matches Some(
                VolumeChange::Adjust(down),
            )
            &&& down == -up
        },
{
}

/// A turn of the wheel asks for the same as a press: up for what the primary button asks, down for
/// what the secondary button asks.
pub proof fn law_wheel_agrees_with_presses(has_device: bool)
    ensures
        brightness_scroll(true) == brightness_change(Some(PointerButton::Primary)),
        brightness_scroll(false) == brightness_change(Some(PointerButton::Secondary)),
        volume_scroll(has_device, true) == volume_change(has_device, Some(PointerButton::Primary)),
        volume_scroll(has_device, false) == volume_change(
            has_device,
            Some(PointerButton::Secondary),
        ),
{
}

/// Every part has one place in the bar, and no other.
pub proof fn law_every_part_has_one_place(
    bar: BarState,
    readings: ReadingsState,
    part: Part,
    i: int,
    j: int,
)
    requires
        0 <= i < picture(bar, readings).order.len(),
        0 <= j < picture(bar, readings).order.len(),
    ensures
        picture(bar, readings).order.contains(part),
        picture(bar, readings).order[i] == picture(bar, readings).order[j] ==> i == j,
{
    let order = part_order();
    match part {
        Part::Tags => assert(order[0] == part),
        Part::Layout => assert(order[1] == part),
        Part::LayoutOptions => assert(order[2] == part),
        Part::Stretch => assert(order[3] == part),
        Part::Cpu => assert(order[4] == part),
        Part::Memory => assert(order[5] == part),
        Part::Battery => assert(order[6] == part),
        Part::Brightness => assert(order[7] == part),
        Part::Volume => assert(order[8] == part),
        Part::Screenshot => assert(order[9] == part),
        Part::Theme => assert(order[10] == part),
        Part::Time => assert(order[11] == part),
        Part::Monitor => assert(order[12] == part),
        Part::Scale => assert(order[13] == part),
    }
}

/// The layout selector marks the layout in use, and no other.
pub proof fn law_one_layout_is_marked(bar: BarState, i: int, j: int)
    requires
        bar.wf(),
        0 <= i < layout_choices(bar).len(),
        0 <= j < layout_choices(bar).len(),
    ensures
        layout_choices(bar)[i].index == i,
        layout_choices(bar)[i].label.color == bar.theme.green <==> layout_choices(bar)[i].label.text
            == bar.layout_symbol,
        i != j ==> layout_choices(bar)[i].label.text != layout_choices(bar)[j].label.text,
{
    reveal_strlit("[]=");
    reveal_strlit("><>");
    reveal_strlit("[M]");
    assert(DEFAULT_LAYOUT@[1] == ']' && FLOATING_LAYOUT@[1] == '<' && MONOCLE_LAYOUT@[1] == 'M');
}

/// The layout selector is shown while it is open, and a press of its button twice, or of a layout
/// once it is open, puts it away again.
pub proof fn law_selector_is_put_away(bar: BarState, readings: ReadingsState)
    ensures
        picture(bar, readings).layout_options is Some <==> bar.layout_selector_open,
        picture(bar.with_selector(false), readings).layout_options is None,
        bar.with_selector(!bar.layout_selector_open).with_selector(bar.layout_selector_open) == bar,
{
}

/// The monitor that is shown is the one that commands go to: every command, of whatever type, has
/// its number, and the type and the parameter that were asked for.
pub proof fn law_commands_go_to_the_shown_monitor(bar: BarState, readings: ReadingsState)
    requires
        bar.wf(),
    ensures
        picture(bar, readings).monitor.value.text == monitor_label(bar.monitor_num),
        i32::MIN <= bar.monitor_num <= i32::MAX ==> forall|command: CommandType, parameter: u32|
            (#[trigger] bar.command(command, parameter as int)) matches Some(sent) ==> {
                &&& sent.monitor_num == bar.monitor_num
                &&& sent.monitor_num == shown_monitor(bar)
                &&& sent.command == command
                &&& sent.parameter == parameter
            },
        forall|command: CommandType, parameter: u32|
            (#[trigger] bar.command(command, parameter as int)) is Some <==> bar.connected,
{
}

/// The theme button shows the sun in the dark theme and the moon in the light one, so that every
/// press changes it.
pub proof fn law_theme_button_shows_the_other_mode(bar: BarState)
    ensures
        theme_label(bar).text == ICON_SUN@ <==> bar.theme_mode == ThemeMode::Dark,
        theme_label(bar).text == ICON_MOON@ <==> bar.theme_mode == ThemeMode::Light,
        theme_label(bar.theme_toggled()).text != theme_label(bar).text,
{
    reveal_strlit("\u{F0599}");
    reveal_strlit("\u{F0594}");
    assert(ICON_SUN@[0] != ICON_MOON@[0]);
}

/// A muted device looks muted at any volume, and so does one at no volume, but its colour tells
/// the two apart.
pub proof fn law_silence_is_shown(theme: Theme, device: DeviceState)
    requires
        device.is_muted || device.volume <= 0,
    ensures
        volume_pill(theme, Some(device)).icon.text == crate::icons::ICON_VOL_MUTE@,
        volume_pill(theme, Some(device)).icon.color == if device.is_muted {
            theme.subtle
        } else {
            theme.teal
        },
{
}

/// The volume is never shown below 0 or above 100 percent.
pub proof fn law_volume_is_shown_in_range(theme: Theme, device: DeviceState)
    ensures
        exists|shown: int|
            0 <= shown <= 100 && volume_pill(theme, Some(device)).value.text == #[trigger] percent(
                shown,
            ),
        0 <= device.volume <= 100 ==> volume_pill(theme, Some(device)).value.text == percent(
            device.volume,
        ),
{
    assert(volume_pill(theme, Some(device)).value.text == percent(clamped(device.volume)));
}

/// The models of labels, pills, buttons and readings have what their fields hold.
pub proof fn law_parts_show_their_fields(
    label: Label,
    pill: Pill,
    button: TagButton,
    option: LayoutOption,
)
    ensures
        label@.text == label.text@,
        label@.color == label.color,
        pill@.icon == pill.icon@,
        pill@.value == pill.value@,
        button@.label == button.label@,
        button@.background == button.background,
        button@.border_width == button.border_width,
        button@.border_color == button.border_color,
        option@.label == option.label@,
        option@.index == option.index,
{
}

/// The models of what the monitors of the system say have what their fields hold.
pub proof fn law_readings_show_their_fields(
    readings: Readings,
    snapshot: SystemSnapshot,
    device: AudioDevice,
)
    ensures
        readings.snapshot is None <==> readings@.snapshot is None,
        readings.snapshot == Some(snapshot) ==> readings@.snapshot == Some(snapshot@),
        readings@.brightness == readings.brightness,
        readings.master_device is None <==> readings@.master_device is None,
        readings.master_device == Some(device) ==> readings@.master_device == Some(device@),
        snapshot@.cpu_average == snapshot.cpu_average@,
        snapshot@.memory_usage_percent == snapshot.memory_usage_percent@,
        snapshot@.battery_percent == snapshot.battery_percent@,
        snapshot@.is_charging == snapshot.is_charging,
        device@.name == device.name@,
        device@.volume == device.volume,
        device@.is_muted == device.is_muted,
{
}

/// The model of all that the bar shows has what its fields hold, every button in its place.
pub proof fn law_view_shows_its_fields(view: BarView, i: int)
    ensures
        view@.background == view.background,
        view@.tags.len() == view.tags@.len(),
        0 <= i < view.tags@.len() ==> view@.tags[i] == view.tags@[i]@,
        view@.layout == view.layout@,
        view.layout_options is None <==> view@.layout_options is None,
        view.layout_options matches Some(options) ==> {
            &&& view@.layout_options matches Some(shown)
            &&& shown.len() == options@.len()
            &&& 0 <= i < options@.len() ==> shown[i] == options@[i]@
        },
        view@.cpu == view.cpu@,
        view@.memory == view.memory@,
        view@.battery == view.battery@,
        view@.brightness == view.brightness@,
        view@.volume == view.volume@,
        view@.screenshot == view.screenshot@,
        view@.theme == view.theme@,
        view@.time == view.time@,
        view@.monitor == view.monitor@,
        view@.scale == view.scale@,
        view@.order == view.order@,
{
}

/// The parts of the bar by their place, from left to right.
pub proof fn law_parts_by_place(bar: BarState, readings: ReadingsState)
    ensures
        picture(bar, readings).order == part_order(),
        picture(bar, readings).order.len() == 14,
        picture(bar, readings).order[0] == Part::Tags,
        picture(bar, readings).order[1] == Part::Layout,
        picture(bar, readings).order[2] == Part::LayoutOptions,
        picture(bar, readings).order[3] == Part::Stretch,
        picture(bar, readings).order[4] == Part::Cpu,
        picture(bar, readings).order[5] == Part::Memory,
        picture(bar, readings).order[6] == Part::Battery,
        picture(bar, readings).order[7] == Part::Brightness,
        picture(bar, readings).order[8] == Part::Volume,
        picture(bar, readings).order[9] == Part::Screenshot,
        picture(bar, readings).order[10] == Part::Theme,
        picture(bar, readings).order[11] == Part::Time,
        picture(bar, readings).order[12] == Part::Monitor,
        picture(bar, readings).order[13] == Part::Scale,
{
}

/// The button of a tag shows the glyph of the tag, in the colour of active tags where the tag is
/// filled, selected or urgent and else in that of the others, and it looks as the status of the tag
/// has it.
pub proof fn law_tag_button_shows_the_tag(bar: BarState, readings: ReadingsState, index: int)
    requires
        0 <= index < 9,
    ensures
        picture(bar, readings).tags.len() == 9,
        picture(bar, readings).tags == tag_buttons(bar),
        ({
            let button = picture(bar, readings).tags[index];
            &&& button.label.text == tag_glyph(index)
            &&& (button.background, button.border_width, button.border_color) == bar.visuals(index)
            &&& bar.tag_status(index) matches Some(status) ==> button.label.color
                == if status.is_filled || status.is_selected || status.is_urg {
                bar.theme.tag_active_text
            } else {
                bar.theme.tag_inactive_text
            }
            &&& bar.tag_status(index) is None ==> button.label.color == bar.theme.tag_inactive_text
            &&& button == tag_button(bar, index)
        }),
{
}

/// The button of the layout selector shows the symbol of the layout, green while the selector is
/// open and orange while it is closed.
pub proof fn law_layout_button_shows_the_layout(bar: BarState, readings: ReadingsState)
    ensures
        picture(bar, readings).layout.text == bar.layout_symbol,
        bar.layout_selector_open ==> picture(bar, readings).layout.color == bar.theme.green,
        !bar.layout_selector_open ==> picture(bar, readings).layout.color == bar.theme.orange,
        picture(bar, readings).layout == layout_label(bar),
{
}

/// The open layout selector offers the tiled, the floating and the monocle layout, in this order and
/// by the numbers 0, 1 and 2; the one in use is green, the others are blue.
pub proof fn law_layout_selector_offers_three(bar: BarState, readings: ReadingsState, i: int)
    requires
        bar.layout_selector_open,
        0 <= i < 3,
    ensures
        picture(bar, readings).layout_options matches Some(options) && {
            let symbol = if i == 0 {
                seq!['[', ']', '=']
            } else if i == 1 {
                seq!['>', '<', '>']
            } else {
                seq!['[', 'M', ']']
            };
            &&& options.len() == 3
            &&& options == layout_choices(bar)
            &&& options[i].index == i
            &&& options[i].label.text == symbol
            &&& bar.layout_symbol == symbol ==> options[i].label.color == bar.theme.green
            &&& bar.layout_symbol != symbol ==> options[i].label.color == bar.theme.blue
        },
{
    reveal_strlit("[]=");
    reveal_strlit("><>");
    reveal_strlit("[M]");
    assert(DEFAULT_LAYOUT@ =~= seq!['[', ']', '=']);
    assert(FLOATING_LAYOUT@ =~= seq!['>', '<', '>']);
    assert(MONOCLE_LAYOUT@ =~= seq!['[', 'M', ']']);
}

/// The pill of a load shows the glyph that it is given in the colour of the load, and the text of
/// the reading in the colour of text.
pub proof fn law_usage_pill_shows_the_load(theme: Theme, icon: Seq<char>, usage: GaugeState)
    ensures
        usage_pill(theme, icon, usage).icon.text == icon,
        usage_pill(theme, icon, usage).icon.color == usage_accent(theme, usage.bits),
        usage_pill(theme, icon, usage).value.text == usage.text,
        usage_pill(theme, icon, usage).value.color == theme.fg,
{
}

/// The glyph of the battery tells whether it is charging, and nothing of its charge; the colour of
/// the glyph tells of the charge, and nothing of the charging. The text is that of the reading.
pub proof fn law_battery_glyph_tells_the_charging(
    theme: Theme,
    charge: GaugeState,
    other: GaugeState,
    is_charging: bool,
)
    ensures
        is_charging ==> battery_pill(theme, charge, is_charging).icon.text == seq!['\u{F0084}'],
        !is_charging ==> battery_pill(theme, charge, is_charging).icon.text == seq!['\u{F0079}'],
        ICON_BAT_CHG@ != ICON_BAT_FULL@,
        battery_pill(theme, charge, is_charging).icon.text == ICON_BAT_CHG@ <==> is_charging,
        battery_pill(theme, charge, is_charging).icon.text == ICON_BAT_FULL@ <==> !is_charging,
        battery_pill(theme, charge, is_charging).icon.text == battery_pill(
            theme,
            other,
            is_charging,
        ).icon.text,
        battery_pill(theme, charge, true).icon.text != battery_pill(theme, other, false).icon.text,
        battery_pill(theme, charge, is_charging).icon.color == battery_accent(theme, charge.bits),
        battery_pill(theme, charge, is_charging).value.text == charge.text,
        battery_pill(theme, charge, is_charging).value.color == theme.fg,
{
    law_glyphs_by_code_point();
    assert(ICON_BAT_CHG@[0] != ICON_BAT_FULL@[0]);
}

/// A number of percent is written in decimal, with a percent sign after it.
pub proof fn law_percent_spells_the_number(n: int)
    ensures
        percent(n).last() == '%',
        n >= 0 ==> spells(percent(n).drop_last(), n),
        n < 0 ==> percent(n)[0] == '-' && spells(percent(n).drop_last().skip(1), -n),
{
    law_signed_decimal_spells_the_number(n);
    assert(percent(n).drop_last() =~= signed_decimal(n));
}

/// The pill of the brightness shows its glyph in yellow, and in the colour of text the brightness in
/// percent, or two dashes where it cannot be read.
pub proof fn law_brightness_pill_shows_the_brightness(theme: Theme, brightness: Option<i64>)
    ensures
        brightness_pill(theme, brightness).icon.text == seq!['\u{F00DE}'],
        brightness_pill(theme, brightness).icon.color == theme.yellow,
        brightness matches Some(p) ==> brightness_pill(theme, brightness).value.text == percent(
            p as int,
        ),
        brightness is None ==> brightness_pill(theme, brightness).value.text == seq!['-', '-'],
        brightness_pill(theme, brightness).value.color == theme.fg,
{
    law_glyphs_by_code_point();
    reveal_strlit("--");
    assert(UNKNOWN@ =~= seq!['-', '-']);
}

/// The volume that is shown is that of the device where it lies between 0 and 100, and else the
/// nearer of the two.
pub proof fn law_clamped_volume_is_the_nearest(volume: int, other: int)
    requires
        0 <= other <= 100,
    ensures
        0 <= clamped(volume) <= 100,
        0 <= volume <= 100 ==> clamped(volume) == volume,
        volume <= other ==> clamped(volume) <= other,
        volume >= other ==> clamped(volume) >= other,
        volume < 0 ==> clamped(volume) == 0,
        volume > 100 ==> clamped(volume) == 100,
{
}

/// The pill of the volume of a device: the mute glyph where the device is muted or at 0 or less, and
/// else the glyph of the third that the volume lies in; grey where it is muted, whatever the volume,
/// and else teal; and the volume in percent, which stops at 0 and at 100.
pub proof fn law_volume_pill_shows_the_device(theme: Theme, device: DeviceState)
    ensures
        ({
            let shown = volume_pill(theme, Some(device));
            &&& device.is_muted || device.volume <= 0 ==> shown.icon.text == seq!['\u{F075F}']
            &&& !device.is_muted && 1 <= device.volume <= 33 ==> shown.icon.text
                == seq!['\u{F057F}']
            &&& !device.is_muted && 34 <= device.volume <= 66 ==> shown.icon.text
                == seq!['\u{F0580}']
            &&& !device.is_muted && 67 <= device.volume ==> shown.icon.text == seq!['\u{F057E}']
            &&& device.is_muted ==> shown.icon.color == theme.subtle
            &&& !device.is_muted ==> shown.icon.color == theme.teal
            &&& device.volume <= 0 ==> shown.value.text == percent(0)
            &&& 0 <= device.volume <= 100 ==> shown.value.text == percent(device.volume)
            &&& device.volume >= 100 ==> shown.value.text == percent(100)
            &&& shown.value.color == theme.fg
        }),
{
    law_volume_glyph_goes_by_thirds(clamped(device.volume), device.is_muted, true);
}

/// Without a device the pill of the volume shows the mute glyph in grey, and two dashes.
pub proof fn law_volume_pill_without_a_device(theme: Theme)
    ensures
        volume_pill(theme, None).icon.text == seq!['\u{F075F}'],
        volume_pill(theme, None).icon.color == theme.subtle,
        volume_pill(theme, None).value.text == seq!['-', '-'],
        volume_pill(theme, None).value.color == theme.fg,
{
    law_volume_glyph_goes_by_thirds(0, true, false);
    reveal_strlit("--");
    assert(UNKNOWN@ =~= seq!['-', '-']);
}

/// The theme button is the sun in yellow while the theme is dark, and the moon in mauve while it is
/// light.
pub proof fn law_theme_button_has_a_sun_and_a_moon(bar: BarState)
    ensures
        bar.theme_mode == ThemeMode::Dark ==> theme_label(bar).text == seq!['\u{F0599}']
            && theme_label(bar).color == bar.theme.yellow,
        bar.theme_mode == ThemeMode::Light ==> theme_label(bar).text == seq!['\u{F0594}']
            && theme_label(bar).color == bar.theme.mauve,
{
    law_glyphs_by_code_point();
}

/// The monitor that is shown is the one of the last message, and the first one before any message.
pub proof fn law_monitor_of_the_last_message_is_shown(
    bar: BarState,
    info: MonitorState,
    readings: ReadingsState,
)
    ensures
        picture(bar.informed(info), readings).monitor.value.text == monitor_label(info.monitor_num),
        bar.monitor matches Some(monitor) ==> picture(bar, readings).monitor.value.text
            == monitor_label(monitor.monitor_num),
        bar.monitor is None ==> picture(bar, readings).monitor.value.text == seq!['\u{F02DA}'],
        shown_monitor(bar.informed(info)) == info.monitor_num,
        bar.monitor is None ==> shown_monitor(bar) == 0,
{
    law_glyphs_by_code_point();
}

/// A scale is written with its whole part in decimal and two decimals after a point, so that the
/// digits give back the hundredths, and with `s: ` before it.
pub proof fn law_scale_text_reads_back(hundredths: int)
    requires
        0 <= hundredths,
    ensures
        ({
            let text = scale_text(hundredths);
            let point = text.len() - 3;
            &&& point > 3
            &&& text.take(3) == seq!['s', ':', ' ']
            &&& text[point] == '.'
            &&& spells(text.subrange(3, point), hundredths / 100)
            &&& reads_at(text, point + 1, hundredths % 100)
        }),
{
    reveal_strlit("s: ");
    let text = scale_text(hundredths);
    let point = text.len() - 3;
    let whole_part = signed_decimal(hundredths / 100);
    law_signed_decimal_spells_the_number(hundredths / 100);
    assert(text.take(3) =~= seq!['s', ':', ' ']);
    assert(text.subrange(3, point) =~= whole_part);
    assert(text[point + 1] == digit_char((hundredths % 100) / 10));
    assert(text[point + 2] == digit_char((hundredths % 100) % 10));
}

/// The scale that the bar shows is one.
pub proof fn law_scale_is_one(bar: BarState, readings: ReadingsState)
    ensures
        picture(bar, readings).scale.text == seq!['s', ':', ' ', '1', '.', '0', '0'],
        picture(bar, readings).scale.color == bar.theme.subtle,
        SCALE == 100,
{
    reveal_strlit("s: ");
    assert(scale_text(100) =~= seq!['s', ':', ' ', '1', '.', '0', '0']);
}

/// Where each part of the bar gets what it shows from. The loads of the processor and of the memory
/// are those of the snapshot, each with its own glyph, and so is the charge of the battery; where
/// there is no snapshot all of them are zero and nothing is charging.
pub proof fn law_picture_shows_the_snapshot(bar: BarState, readings: ReadingsState)
    ensures
        picture(bar, readings).cpu.icon.text == seq!['\u{F0FB1}'],
        picture(bar, readings).memory.icon.text == seq!['\u{F035B}'],
        readings.snapshot matches Some(snapshot) ==> {
            &&& picture(bar, readings).cpu.value.text == snapshot.cpu_average.text
            &&& picture(bar, readings).cpu.icon.color == usage_accent(
                bar.theme,
                snapshot.cpu_average.bits,
            )
            &&& picture(bar, readings).memory.value.text == snapshot.memory_usage_percent.text
            &&& picture(bar, readings).memory.icon.color == usage_accent(
                bar.theme,
                snapshot.memory_usage_percent.bits,
            )
            &&& picture(bar, readings).battery.value.text == snapshot.battery_percent.text
            &&& picture(bar, readings).battery.icon.color == battery_accent(
                bar.theme,
                snapshot.battery_percent.bits,
            )
            &&& picture(bar, readings).battery.icon.text == if snapshot.is_charging {
                seq!['\u{F0084}']
            } else {
                seq!['\u{F0079}']
            }
        },
        readings.snapshot is None ==> {
            &&& picture(bar, readings).cpu.value.text == seq!['0', '%']
            &&& picture(bar, readings).cpu.icon.color == bar.theme.green
            &&& picture(bar, readings).memory.value.text == seq!['0', '%']
            &&& picture(bar, readings).memory.icon.color == bar.theme.green
            &&& picture(bar, readings).battery.value.text == seq!['0', '%']
            &&& picture(bar, readings).battery.icon.color == bar.theme.red
            &&& picture(bar, readings).battery.icon.text == seq!['\u{F0079}']
        },
        picture(bar, readings).cpu.value.color == bar.theme.fg,
        picture(bar, readings).memory.value.color == bar.theme.fg,
        picture(bar, readings).battery.value.color == bar.theme.fg,
        zero_percent().bits == 0,
        zero_percent().text == seq!['0', '%'],
{
    law_glyphs_by_code_point();
    law_usage_color_by_bits(bar.theme, 0);
    law_battery_color_by_bits(bar.theme, 0);
    reveal_strlit("0%");
    assert("0%"@ =~= seq!['0', '%']);
}

/// The other parts of the bar: the brightness and the volume are those of the readings; the
/// screenshot button is pink; the clock shows the text of the bar after a blue glyph; the monitor
/// comes after a mauve one. All is in the colours of the theme of the bar.
pub proof fn law_picture_shows_the_rest(bar: BarState, readings: ReadingsState)
    ensures
        picture(bar, readings).background == bar.theme.bar_bg,
        picture(bar, readings).brightness == brightness_pill(bar.theme, readings.brightness),
        picture(bar, readings).volume == volume_pill(bar.theme, readings.master_device),
        picture(bar, readings).screenshot.text == seq!['\u{F0104}'],
        picture(bar, readings).screenshot.color == bar.theme.pink,
        picture(bar, readings).theme == theme_label(bar),
        picture(bar, readings).time.icon.text == seq!['\u{F0954}'],
        picture(bar, readings).time.icon.color == bar.theme.blue,
        picture(bar, readings).time.value.text == bar.formated_now,
        picture(bar, readings).time.value.color == bar.theme.fg,
        picture(bar, readings).monitor.icon.text == seq!['\u{F0379}'],
        picture(bar, readings).monitor.icon.color == bar.theme.mauve,
        picture(bar, readings).monitor.value.color == bar.theme.fg,
{
    law_glyphs_by_code_point();
}

/// A press of the brightness pill dims by 10 percent with the secondary button and brightens by 10
/// with every other one, or where the button is not known; a turn of the wheel brightens upwards
/// and dims downwards.
pub proof fn law_brightness_steps(button: Option<PointerButton>)
    ensures
        brightness_change(Some(PointerButton::Secondary)) == -10,
        button != Some(PointerButton::Secondary) ==> brightness_change(button) == 10,
        brightness_scroll(true) == 10,
        brightness_scroll(false) == -10,
{
}

/// A press of the volume pill turns the device down by 5 percent with the secondary button, mutes or
/// unmutes it with the auxiliary one, and turns it up by 5 with every other one, or where the button
/// is not known; a turn of the wheel turns it up and down by as much. Without a device none of this
/// does anything.
pub proof fn law_volume_steps(button: Option<PointerButton>, up: bool)
    ensures
        volume_change(false, button) is None,
        volume_scroll(false, up) is None,
        volume_change(true, Some(PointerButton::Secondary)) matches Some(
            VolumeChange::Adjust(step),
        ) && step == -5,
        volume_change(true, Some(PointerButton::Auxiliary)) == Some(VolumeChange::ToggleMute),
        button != Some(PointerButton::Secondary) && button != Some(PointerButton::Auxiliary) ==> {
            &&& volume_change(true, button) matches Some(VolumeChange::Adjust(step))
            &&& step == 5
        },
        volume_scroll(true, true) matches Some(VolumeChange::Adjust(step)) && step == 5,
        volume_scroll(true, false) matches Some(VolumeChange::Adjust(step)) && step == -5,
{
}

/// A label and a pill have the texts and the colours that they were made of, each in its place.
pub proof fn law_labels_and_pills(
    icon: Seq<char>,
    accent: Color,
    text: Seq<char>,
    color: Color,
)
    ensures
        label(text, color).text == text,
        label(text, color).color == color,
        pill(icon, accent, text, color).icon.text == icon,
        pill(icon, accent, text, color).icon.color == accent,
        pill(icon, accent, text, color).value.text == text,
        pill(icon, accent, text, color).value.color == color,
{
}

/// What the bar starts for a screenshot.
pub proof fn law_screenshot_command()
    ensures
        SCREENSHOT_PROGRAM@ == "flameshot"@,
        SCREENSHOT_ARGUMENT@ == "gui"@,
{
}

/// A press of the volume pill and a turn of the wheel over it are about the device that there is,
/// by its name, and about nothing where there is none.
pub proof fn law_volume_steps_name_the_device(
    device: &Option<AudioDevice>,
    button: Option<PointerButton>,
    up: bool,
    pressed: Option<(String, VolumeChange)>,
    turned: Option<(String, VolumeChange)>,
)
    requires
        call_ensures(press_volume, (device, button), pressed),
        call_ensures(scroll_volume, (device, up), turned),
    ensures
        device is None ==> pressed is None && turned is None,
        device matches Some(there) ==> {
            &&& pressed matches Some((name, _)) && name@ == there.name@
            &&& turned matches Some((name, _)) && name@ == there.name@
        },
{
}

} // verus!
