//! The state of the bar and how it changes.
use vstd::arithmetic::power2::pow2;
use vstd::prelude::*;

use crate::clock::{clock_text, is_reading, read_clock, time_text, LocalTime};
use crate::color::{faded, has_code, opaque, rgb, same_channels, with_alpha, Alpha, Color};
use crate::icons::TAG_COUNT;
use crate::shared::{
    bit_of_tag, tag_bit, CommandType, MonitorInfo, MonitorState, SharedCommand, TagStatus, WorkerEvent,
};
use crate::theme::{other_mode, palette, Theme, ThemeMode};

verus! {

/// How much time passes at least between two readings of the wall clock, in nanoseconds.
pub const CLOCK_PERIOD: u128 = 900_000_000;

/// How much time passes at least between two refreshes of the monitors of the system, in
/// nanoseconds.
pub const MONITOR_PERIOD: u128 = 2_000_000_000;

/// The layout symbol that is shown before the window manager has sent one.
pub const DEFAULT_LAYOUT: &'static str = "[]=";

/// What is left to do of a report of a background worker. Each step goes by a reading of the
/// monotonic clock of its own.
#[derive(Copy, Clone, PartialEq, Eq, Structural, Debug)]
pub enum TickStep {
    /// Note when the wall clock was read.
    StampClock,
    /// See whether the monitors of the system are to be refreshed.
    CheckMonitors,
    /// Refresh the monitors of the system, and then note when.
    RefreshMonitors,
    /// Nothing.
    Done,
}

/// The bar. Points in time are in nanoseconds since some moment before the start.
#[derive(Debug)]
pub struct XilemBar {
    pub active_tab: usize,
    pub tab_colors: [Color; 9],
    /// Whether there is a shared buffer to send commands through.
    pub connected: bool,
    pub monitor_info_opt: Option<MonitorInfo>,
    pub formated_now: String,
    pub show_seconds: bool,
    pub layout_symbol: String,
    pub monitor_num: i32,
    pub layout_selector_open: bool,
    pub theme_mode: ThemeMode,
    pub theme: Theme,
    pub last_clock_update: u128,
    pub last_monitor_update: u128,
}

/// The model of the bar.
pub struct BarState {
    pub active_tab: int,
    pub tab_colors: Seq<Color>,
    pub connected: bool,
    pub monitor: Option<MonitorState>,
    pub formated_now: Seq<char>,
    pub show_seconds: bool,
    pub layout_symbol: Seq<char>,
    pub monitor_num: int,
    pub layout_selector_open: bool,
    pub theme_mode: ThemeMode,
    pub theme: Theme,
    pub last_clock_update: int,
    pub last_monitor_update: int,
}

impl View for XilemBar {
    type V = BarState;

    open spec fn view(&self) -> BarState {
        BarState {
            active_tab: self.active_tab as int,
            tab_colors: self.tab_colors@,
            connected: self.connected,
            monitor: match self.monitor_info_opt {
                Some(info) => Some(info@),
                None => None,
            },
            formated_now: self.formated_now@,
            show_seconds: self.show_seconds,
            layout_symbol: self.layout_symbol@,
            monitor_num: self.monitor_num as int,
            layout_selector_open: self.layout_selector_open,
            theme_mode: self.theme_mode,
            theme: self.theme,
            last_clock_update: self.last_clock_update as int,
            last_monitor_update: self.last_monitor_update as int,
        }
    }
}

/// The colours of the workspace tags.
pub open spec fn tab_palette() -> Seq<Color> {
    seq![
        opaque(0xFF, 0x6B, 0x6B),
        opaque(0x4E, 0xCD, 0xC4),
        opaque(0x45, 0xB7, 0xD1),
        opaque(0x96, 0xCE, 0xB4),
        opaque(0xFE, 0xCA, 0x57),
        opaque(0xFF, 0x9F, 0xF3),
        opaque(0x54, 0xA0, 0xFF),
        opaque(0x5F, 0x27, 0xCD),
        opaque(0x00, 0xD2, 0xD3),
    ]
}

impl BarState {
    /// What holds of the bar at all times: its colours are those of its mode, and the layout and
    /// the monitor that it goes by are those that the window manager sent last.
    pub open spec fn wf(self) -> bool {
        &&& self.tab_colors == tab_palette()
        &&& self.theme == palette(self.theme_mode)
        &&& match self.monitor {
            Some(monitor) => self.layout_symbol == monitor.ltsymbol && self.monitor_num
                == monitor.monitor_num,
            None => self.layout_symbol == DEFAULT_LAYOUT@ && self.monitor_num == 0,
        }
    }

    /// The bar at the start.
    pub open spec fn initial(
        theme_mode: ThemeMode,
        connected: bool,
        clock_start: int,
        monitor_start: int,
    ) -> BarState {
        BarState {
            active_tab: 0,
            tab_colors: tab_palette(),
            connected,
            monitor: None,
            formated_now: seq![],
            show_seconds: true,
            layout_symbol: DEFAULT_LAYOUT@,
            monitor_num: 0,
            layout_selector_open: false,
            theme_mode,
            theme: palette(theme_mode),
            last_clock_update: clock_start,
            last_monitor_update: monitor_start,
        }
    }

    /// Whether it is time to read the wall clock.
    pub open spec fn clock_due(self, now: int) -> bool {
        now - self.last_clock_update >= CLOCK_PERIOD
    }

    /// Whether it is time to refresh the monitors of the system.
    pub open spec fn monitors_due(self, now: int) -> bool {
        now - self.last_monitor_update >= MONITOR_PERIOD
    }

    /// The bar once it shows `time`.
    pub open spec fn showing(self, time: LocalTime) -> BarState {
        BarState { formated_now: time_text(time, self.show_seconds), ..self }
    }

    /// The bar once it has noted when it read the wall clock.
    pub open spec fn clock_stamped(self, now: int) -> BarState {
        BarState { last_clock_update: now, ..self }
    }

    /// The bar once the monitors of the system are refreshed.
    pub open spec fn refreshed(self, now: int) -> BarState {
        BarState { last_monitor_update: now, ..self }
    }

    /// The first step of a tick: where it is time to, the wall clock is read, which says `time`.
    pub open spec fn ticked(self, time: LocalTime, now: int) -> (BarState, TickStep) {
        if self.clock_due(now) {
            (self.showing(time), TickStep::StampClock)
        } else {
            (self, TickStep::CheckMonitors)
        }
    }

    /// A later step of a tick, and the one that comes after it.
    pub open spec fn continued(self, step: TickStep, now: int) -> (BarState, TickStep) {
        match step {
            TickStep::StampClock => (self.clock_stamped(now), TickStep::CheckMonitors),
            TickStep::CheckMonitors => if self.monitors_due(now) {
                (self, TickStep::RefreshMonitors)
            } else {
                (self, TickStep::Done)
            },
            TickStep::RefreshMonitors => (self.refreshed(now), TickStep::Done),
            TickStep::Done => (self, TickStep::Done),
        }
    }

    /// The bar once the window manager has sent `info`.
    pub open spec fn informed(self, info: MonitorState) -> BarState {
        BarState {
            monitor: Some(info),
            layout_symbol: info.ltsymbol,
            monitor_num: info.monitor_num,
            active_tab: last_selected(info.tags, self.active_tab),
            ..self
        }
    }

    /// The bar with its theme swapped for the other one.
    pub open spec fn theme_toggled(self) -> BarState {
        BarState {
            theme_mode: other_mode(self.theme_mode),
            theme: palette(other_mode(self.theme_mode)),
            ..self
        }
    }

    /// The bar with a workspace tag made the active one.
    pub open spec fn on_tab(self, index: int) -> BarState {
        BarState { active_tab: index, ..self }
    }

    /// The bar with its layout selector open or closed.
    pub open spec fn with_selector(self, open: bool) -> BarState {
        BarState { layout_selector_open: open, ..self }
    }

    /// The bar with the seconds of its clock shown or not.
    pub open spec fn with_seconds(self, show: bool) -> BarState {
        BarState { show_seconds: show, ..self }
    }

    /// What the window manager said of a tag, where it said anything.
    pub open spec fn tag_status(self, index: int) -> Option<TagStatus> {
        match self.monitor {
            Some(monitor) => if 0 <= index < monitor.tags.len() {
                Some(monitor.tags[index])
            } else {
                None
            },
            None => None,
        }
    }

    /// The colour of a tag, grey for one beyond the palette.
    pub open spec fn tag_color(self, index: int) -> Color {
        if 0 <= index < self.tab_colors.len() {
            self.tab_colors[index]
        } else {
            opaque(0x66, 0x66, 0x66)
        }
    }

    /// The background, the width of the border in tenths of a pixel and the colour of the border
    /// of a tag. An urgent tag goes before a filled one, that before a selected one, and that
    /// before one that is only occupied.
    pub open spec fn visuals(self, index: int) -> (Color, u32, Color) {
        let color = self.tag_color(index);
        let idle = (self.theme.tag_inactive_bg, 10u32, faded(color, 90));
        match self.tag_status(index) {
            Some(status) => if status.is_urg {
                (self.theme.urgent_bg, 20, self.theme.urgent_border)
            } else if status.is_filled {
                (color, 20, color)
            } else if status.is_selected {
                (faded(color, 70), 15, color)
            } else if status.is_occ {
                (faded(color, 35), 10, faded(color, 70))
            } else {
                idle
            },
            None => idle,
        }
    }

    /// Whether a tag is written in the colour of an active one.
    pub open spec fn tag_active(self, index: int) -> bool {
        match self.tag_status(index) {
            Some(status) => status.is_filled || status.is_selected || status.is_urg,
            None => false,
        }
    }

    /// A command for the monitor of the bar, where there is a way to send it.
    pub open spec fn command(self, command: CommandType, parameter: int) -> Option<SharedCommand> {
        if self.connected {
            Some(
                SharedCommand {
                    command,
                    parameter: parameter as u32,
                    monitor_num: self.monitor_num as i32,
                },
            )
        } else {
            None
        }
    }
}

/// The index of the last selected tag, or `default` where none is selected.
pub open spec fn last_selected(tags: Seq<TagStatus>, default: int) -> int
    decreases tags.len(),
{
    if tags.len() == 0 {
        default
    } else if tags.last().is_selected {
        tags.len() - 1
    } else {
        last_selected(tags.drop_last(), default)
    }
}

/// The path of the shared buffer: the last argument after the name of the program, or nothing.
pub fn shared_path(args: &Vec<String>) -> (path: String)
    ensures
        path@ == if args@.len() > 1 {
            args@.last()@
        } else {
            seq![]
        },
{
    if args.len() > 1 {
        args[args.len() - 1].clone()
    } else {
        String::new()
    }
}

impl XilemBar {
    /// The bar at the start, with the points in time from which the periods of the wall clock and
    /// of the monitors of the system count.
    pub fn new(
        theme_mode: ThemeMode,
        connected: bool,
        clock_start: u128,
        monitor_start: u128,
    ) -> (bar: XilemBar)
        ensures
            bar@ == BarState::initial(
                theme_mode,
                connected,
                clock_start as int,
                monitor_start as int,
            ),
            bar@.wf(),
    {
        let tab_colors = [
            rgb(0xFF, 0x6B, 0x6B),
            rgb(0x4E, 0xCD, 0xC4),
            rgb(0x45, 0xB7, 0xD1),
            rgb(0x96, 0xCE, 0xB4),
            rgb(0xFE, 0xCA, 0x57),
            rgb(0xFF, 0x9F, 0xF3),
            rgb(0x54, 0xA0, 0xFF),
            rgb(0x5F, 0x27, 0xCD),
            rgb(0x00, 0xD2, 0xD3),
        ];
        let bar = XilemBar {
            active_tab: 0,
            tab_colors,
            connected,
            monitor_info_opt: None,
            formated_now: String::new(),
            show_seconds: true,
            layout_symbol: DEFAULT_LAYOUT.to_owned(),
            monitor_num: 0,
            layout_selector_open: false,
            theme_mode,
            theme: Theme::from_mode(theme_mode),
            last_clock_update: clock_start,
            last_monitor_update: monitor_start,
        };
        assert(bar@.tab_colors =~= tab_palette());
        assert(bar@.formated_now =~= seq![]);
        bar
    }

    /// Swaps the theme for the other one, and returns the mode that is to be stored.
    pub fn toggle_theme(&mut self) -> (stored: ThemeMode)
        ensures
            final(self)@ == old(self)@.theme_toggled(),
            stored == final(self)@.theme_mode,
            old(self)@.wf() ==> final(self)@.wf(),
    {
        self.theme_mode = match self.theme_mode {
            ThemeMode::Dark => ThemeMode::Light,
            ThemeMode::Light => ThemeMode::Dark,
        };
        self.theme = Theme::from_mode(self.theme_mode);
        self.theme_mode
    }

    /// The command that views the active tag or toggles it, where there is a way to send it.
    pub fn send_tag_command(&self, is_view: bool) -> (command: Option<SharedCommand>)
        requires
            self.active_tab < 32,
        ensures
            command == self@.command(
                if is_view {
                    CommandType::ViewTag
                } else {
                    CommandType::ToggleTag
                },
                tag_bit(self@.active_tab),
            ),
            command is Some <==> self.connected,
            command matches Some(sent) ==> {
                &&& sent.command == if is_view {
                    CommandType::ViewTag
                } else {
                    CommandType::ToggleTag
                }
                &&& sent.parameter == pow2(self.active_tab as nat)
                &&& sent.monitor_num == self.monitor_num
            },
    {
        let bit: u32 = bit_of_tag(self.active_tab);
        let command = if is_view {
            CommandType::ViewTag
        } else {
            CommandType::ToggleTag
        };
        if self.connected {
            Some(SharedCommand { command, parameter: bit, monitor_num: self.monitor_num })
        } else {
            None
        }
    }

    /// The command that sets a layout, where there is a way to send it.
    pub fn send_layout_command(&self, layout_index: u32) -> (command: Option<SharedCommand>)
        ensures
            command == self@.command(CommandType::SetLayout, layout_index as int),
            command is Some <==> self.connected,
            command matches Some(sent) ==> {
                &&& sent.command == CommandType::SetLayout
                &&& sent.parameter == layout_index
                &&& sent.monitor_num == self.monitor_num
            },
    {
        if self.connected {
            Some(
                SharedCommand {
                    command: CommandType::SetLayout,
                    parameter: layout_index,
                    monitor_num: self.monitor_num,
                },
            )
        } else {
            None
        }
    }

    /// Makes a tag the active one, and returns the command that views it, where there is a way to
    /// send it.
    pub fn press_tag(&mut self, index: usize) -> (command: Option<SharedCommand>)
        requires
            index < TAG_COUNT,
        ensures
            final(self)@ == old(self)@.on_tab(index as int),
            command == old(self)@.command(CommandType::ViewTag, tag_bit(index as int)),
            command is Some <==> old(self).connected,
            command matches Some(sent) ==> {
                &&& sent.command == CommandType::ViewTag
                &&& sent.parameter == pow2(index as nat)
                &&& sent.monitor_num == old(self).monitor_num
            },
            old(self)@.wf() ==> final(self)@.wf(),
    {
        self.active_tab = index;
        self.send_tag_command(true)
    }

    /// Opens the layout selector, or closes it where it is open.
    pub fn press_layout_toggle(&mut self)
        ensures
            final(self)@ == old(self)@.with_selector(!old(self)@.layout_selector_open),
            old(self)@.wf() ==> final(self)@.wf(),
    {
        self.layout_selector_open = !self.layout_selector_open;
    }

    /// Closes the layout selector, and returns the command that sets the layout, where there is a
    /// way to send it.
    pub fn press_layout(&mut self, layout_index: u32) -> (command: Option<SharedCommand>)
        ensures
            final(self)@ == old(self)@.with_selector(false),
            command == old(self)@.command(CommandType::SetLayout, layout_index as int),
            command is Some <==> old(self).connected,
            command matches Some(sent) ==> {
                &&& sent.command == CommandType::SetLayout
                &&& sent.parameter == layout_index
                &&& sent.monitor_num == old(self).monitor_num
            },
            old(self)@.wf() ==> final(self)@.wf(),
    {
        let command = self.send_layout_command(layout_index);
        self.layout_selector_open = false;
        command
    }

    /// Shows the seconds of the clock from its next reading on, or hides them.
    pub fn press_time(&mut self)
        ensures
            final(self)@ == old(self)@.with_seconds(!old(self)@.show_seconds),
            old(self)@.wf() ==> final(self)@.wf(),
    {
        self.show_seconds = !self.show_seconds;
    }

    /// Shows `time` on the clock.
    pub fn show_time(&mut self, time: &LocalTime)
        requires
            time.valid(),
        ensures
            final(self)@ == old(self)@.showing(*time),
            old(self)@.wf() ==> final(self)@.wf(),
    {
        self.formated_now = clock_text(time, self.show_seconds);
    }

    /// Takes in what a background worker reports, and returns what is left to do, which is for
    /// `continue_tick`.
    pub fn on_worker(&mut self, event: WorkerEvent, now: u128) -> (next: TickStep)
        ensures
            match event {
                WorkerEvent::Tick => {
                    &&& next == if old(self)@.clock_due(now as int) {
                        TickStep::StampClock
                    } else {
                        TickStep::CheckMonitors
                    }
                    &&& old(self)@.clock_due(now as int) ==> exists|time: LocalTime| #[trigger]
                        is_reading(time) && time.valid() && (final(self)@, next)
                            == old(self)@.ticked(time, now as int) && final(self).formated_now@
                            == time_text(time, old(self).show_seconds)
                    &&& !old(self)@.clock_due(now as int) ==> *final(self) == *old(self) && (
                        final(self)@,
                        next,
                    ) == (old(self)@, TickStep::CheckMonitors)
                },
                WorkerEvent::Shared(message) => {
                    &&& next == TickStep::Done
                    &&& final(self)@ == old(self)@.informed(message.monitor_info@)
                    &&& final(self)@.monitor == Some(message.monitor_info@)
                    &&& final(self).monitor_info_opt == Some(message.monitor_info)
                    &&& final(self).layout_symbol@ == message.monitor_info.ltsymbol@
                    &&& final(self).monitor_num == message.monitor_info.monitor_num
                },
                WorkerEvent::SharedError(_) => {
                    &&& next == TickStep::Done
                    &&& final(self)@ == old(self)@
                    &&& *final(self) == *old(self)
                },
            },
            old(self)@.wf() ==> final(self)@.wf(),
    {
        match event {
            WorkerEvent::Tick => {
                if now >= self.last_clock_update && now - self.last_clock_update >= CLOCK_PERIOD {
                    let time = read_clock();
                    self.show_time(&time);
                    TickStep::StampClock
                } else {
                    TickStep::CheckMonitors
                }
            },
            WorkerEvent::Shared(message) => {
                let info = message.monitor_info;
                let ghost before = self@;
                let count: usize = info.tag_status_vec.len();
                let mut active_tab: usize = self.active_tab;
                let mut index: usize = 0;
                while index < count
                    invariant
                        index <= count,
                        count == info.tag_status_vec@.len(),
                        active_tab == last_selected(
                            info.tag_status_vec@.take(index as int),
                            before.active_tab,
                        ),
                    decreases count - index,
                {
                    if info.tag_status_vec[index].is_selected {
                        active_tab = index;
                    }
                    proof {
                        let seen = info.tag_status_vec@.take(index + 1);
                        assert(seen.drop_last() =~= info.tag_status_vec@.take(index as int));
                    }
                    index = index + 1;
                }
                assert(info.tag_status_vec@.take(count as int) =~= info.tag_status_vec@);
                self.active_tab = active_tab;
                self.layout_symbol = info.ltsymbol.clone();
                self.monitor_num = info.monitor_num;
                self.monitor_info_opt = Some(info);
                TickStep::Done
            },
            WorkerEvent::SharedError(_) => TickStep::Done,
        }
    }

    /// Takes a step that is left to do, and returns what is left after it. The monitors of the
    /// system are to be refreshed before the step that is about them.
    pub fn continue_tick(&mut self, step: TickStep, now: u128) -> (next: TickStep)
        ensures
            (final(self)@, next) == old(self)@.continued(step, now as int),
            old(self)@.wf() ==> final(self)@.wf(),
    {
        match step {
            TickStep::StampClock => {
                self.last_clock_update = now;
                TickStep::CheckMonitors
            },
            TickStep::CheckMonitors => {
                if now >= self.last_monitor_update && now - self.last_monitor_update
                    >= MONITOR_PERIOD {
                    TickStep::RefreshMonitors
                } else {
                    TickStep::Done
                }
            },
            TickStep::RefreshMonitors => {
                self.last_monitor_update = now;
                TickStep::Done
            },
            TickStep::Done => TickStep::Done,
        }
    }

    /// The background, the width of the border in tenths of a pixel and the colour of the border
    /// of a tag.
    pub fn tag_visuals(&self, index: usize) -> (visuals: (Color, u32, Color))
        ensures
            visuals == self@.visuals(index as int),
    {
        let color = if index < TAG_COUNT {
            self.tab_colors[index]
        } else {
            rgb(0x66, 0x66, 0x66)
        };
        if let Some(monitor) = &self.monitor_info_opt {
            if index < monitor.tag_status_vec.len() {
                let status = monitor.tag_status_vec[index];
                if status.is_urg {
                    return (self.theme.urgent_bg, 20, self.theme.urgent_border);
                }
                if status.is_filled {
                    return (color, 20, color);
                }
                if status.is_selected {
                    return (with_alpha(color, 70), 15, color);
                }
                if status.is_occ {
                    return (with_alpha(color, 35), 10, with_alpha(color, 70));
                }
            }
        }
        (self.theme.tag_inactive_bg, 10, with_alpha(color, 90))
    }

    /// Whether a tag is written in the colour of an active one.
    pub fn is_tag_active(&self, index: usize) -> (active: bool)
        ensures
            active == self@.tag_active(index as int),
    {
        if let Some(monitor) = &self.monitor_info_opt {
            if index < monitor.tag_status_vec.len() {
                let status = monitor.tag_status_vec[index];
                return status.is_filled || status.is_selected || status.is_urg;
            }
        }
        false
    }
}

/// The active tag is the last one that the window manager calls selected; where it calls none so,
/// the active tag stays.
pub proof fn law_active_tab_follows_the_selection(bar: BarState, info: MonitorState)
    ensures
        forall|i: int|
            0 <= i < info.tags.len() && (#[trigger] info.tags[i]).is_selected ==> {
                &&& i <= bar.informed(info).active_tab < info.tags.len()
                &&& info.tags[bar.informed(info).active_tab].is_selected
            },
        (forall|i: int|
            0 <= i < info.tags.len() ==> !(#[trigger] info.tags[i]).is_selected)
            ==> bar.informed(info).active_tab == bar.active_tab,
{
    lemma_last_selected(info.tags, bar.active_tab);
}

proof fn lemma_last_selected(tags: Seq<TagStatus>, default: int)
    ensures
        forall|i: int|
            0 <= i < tags.len() && (#[trigger] tags[i]).is_selected ==> {
                &&& i <= last_selected(tags, default) < tags.len()
                &&& tags[last_selected(tags, default)].is_selected
            },
        (forall|i: int| 0 <= i < tags.len() ==> !(#[trigger] tags[i]).is_selected)
            ==> last_selected(tags, default) == default,
    decreases tags.len(),
{
    if tags.len() > 0 && !tags.last().is_selected {
        let rest = tags.drop_last();
        lemma_last_selected(rest, default);
        assert forall|i: int| 0 <= i < tags.len() && (#[trigger] tags[i]).is_selected implies {
            &&& i <= last_selected(tags, default) < tags.len()
            &&& tags[last_selected(tags, default)].is_selected
        } by {
            assert(rest[i].is_selected);
            assert(rest[last_selected(rest, default)].is_selected);
        }
        if forall|i: int| 0 <= i < tags.len() ==> !(#[trigger] tags[i]).is_selected {
            assert forall|i: int| 0 <= i < rest.len() implies !(#[trigger] rest[i]).is_selected by {
                assert(!tags[i].is_selected);
            }
        }
    }
}

/// Toggling the theme twice gives back the bar as it was.
pub proof fn law_theme_toggles_back(bar: BarState)
    requires
        bar.wf(),
    ensures
        bar.theme_toggled().theme_toggled() == bar,
        bar.theme_toggled().theme != bar.theme,
{
}

/// Hiding the seconds and showing them again gives back the bar as it was.
pub proof fn law_seconds_toggle_back(bar: BarState)
    ensures
        bar.with_seconds(!bar.show_seconds).with_seconds(bar.show_seconds) == bar,
{
}

/// What the window manager sends last is all that counts, but for the active tag, which an earlier
/// message can have set where the last one selects none.
pub proof fn law_last_message_counts(bar: BarState, first: MonitorState, last: MonitorState)
    ensures
        bar.informed(first).informed(last) == bar.informed(last).on_tab(
            last_selected(last.tags, last_selected(first.tags, bar.active_tab)),
        ),
{
}

/// After a reading of the wall clock the next one is not due before its period has passed since it
/// was noted, and the same goes for a refresh of the monitors of the system.
pub proof fn law_nothing_is_due_early(bar: BarState, now: int, later: int)
    ensures
        bar.clock_stamped(now).clock_due(later) <==> later >= now + CLOCK_PERIOD,
        bar.refreshed(now).monitors_due(later) <==> later >= now + MONITOR_PERIOD,
        bar.clock_stamped(now).monitors_due(later) == bar.monitors_due(later),
        bar.refreshed(now).clock_due(later) == bar.clock_due(later),
{
}

/// The bar after a whole tick. It looks at the wall clock at `clock_checked`, which says `time`,
/// has noted that at `clock_read`, looks at the monitors of the system at `monitors_checked`, and
/// has them refreshed at `monitors_read`.
pub open spec fn after_tick(
    bar: BarState,
    time: LocalTime,
    clock_checked: int,
    clock_read: int,
    monitors_checked: int,
    monitors_read: int,
) -> BarState {
    let shown = if bar.clock_due(clock_checked) {
        bar.showing(time).clock_stamped(clock_read)
    } else {
        bar
    };
    if bar.monitors_due(monitors_checked) {
        shown.refreshed(monitors_read)
    } else {
        shown
    }
}

/// The steps of a tick, each at its own point in time, make up the whole tick: the wall clock and
/// the monitors of the system are each seen to where it is time to, whatever goes for the other.
pub proof fn law_steps_make_up_a_tick(
    bar: BarState,
    time: LocalTime,
    clock_checked: int,
    clock_read: int,
    monitors_checked: int,
    monitors_read: int,
)
    ensures
        ({
            let (first, step) = bar.ticked(time, clock_checked);
            let (second, check) = if step == TickStep::StampClock {
                first.continued(step, clock_read)
            } else {
                (first, step)
            };
            let (third, refresh) = second.continued(check, monitors_checked);
            let (last, done) = third.continued(refresh, monitors_read);
            &&& check == TickStep::CheckMonitors
            &&& refresh == TickStep::RefreshMonitors <==> bar.monitors_due(monitors_checked)
            &&& done == TickStep::Done
            &&& last == after_tick(
                bar,
                time,
                clock_checked,
                clock_read,
                monitors_checked,
                monitors_read,
            )
        }),
{
}

/// A tag is shown as urgent before anything else, and an urgent tag looks like any other urgent
/// one.
pub proof fn law_urgent_goes_first(bar: BarState, one: int, other: int)
    requires
        bar.tag_status(one) matches Some(status) && status.is_urg,
        bar.tag_status(other) matches Some(status) && status.is_urg,
    ensures
        bar.visuals(one) == bar.visuals(other),
        bar.tag_active(one),
{
}

/// A press of a tag asks to view that tag and no other.
pub proof fn law_presses_ask_for_different_tags(bar: BarState, one: int, other: int)
    requires
        bar.connected,
        0 <= one < TAG_COUNT,
        0 <= other < TAG_COUNT,
        one != other,
    ensures
        bar.command(CommandType::ViewTag, tag_bit(one)) != bar.command(
            CommandType::ViewTag,
            tag_bit(other),
        ),
{
    vstd::arithmetic::power2::lemma2_to64();
    crate::shared::law_tag_bits_differ(one as nat, other as nat);
    if one < 8 {
        vstd::arithmetic::power2::lemma_pow2_strictly_increases(one as nat, 8);
    }
    if other < 8 {
        vstd::arithmetic::power2::lemma_pow2_strictly_increases(other as nat, 8);
    }
}

/// The model of the bar has what each field of it holds; of the monitor, what the window manager
/// said of it.
pub proof fn law_bar_shows_its_fields(bar: XilemBar)
    ensures
        bar@.active_tab == bar.active_tab,
        bar@.tab_colors == bar.tab_colors@,
        bar@.connected == bar.connected,
        bar@.monitor is Some <==> bar.monitor_info_opt is Some,
        bar.monitor_info_opt matches Some(info) ==> bar@.monitor == Some(info@),
        bar@.formated_now == bar.formated_now@,
        bar@.show_seconds == bar.show_seconds,
        bar@.layout_symbol == bar.layout_symbol@,
        bar@.monitor_num == bar.monitor_num,
        bar@.layout_selector_open == bar.layout_selector_open,
        bar@.theme_mode == bar.theme_mode,
        bar@.theme == bar.theme,
        bar@.last_clock_update == bar.last_clock_update,
        bar@.last_monitor_update == bar.last_monitor_update,
{
}

/// Each of the nine tags has a colour of its own, and the tags beyond them are grey; all are wholly
/// opaque.
pub proof fn law_tags_have_their_own_colors(bar: BarState, index: int)
    requires
        bar.wf(),
    ensures
        has_code(
            bar.tag_color(index),
            if 0 <= index < 9 {
                seq![
                    0xFF6B6Bint,
                    0x4ECDC4int,
                    0x45B7D1int,
                    0x96CEB4int,
                    0xFECA57int,
                    0xFF9FF3int,
                    0x54A0FFint,
                    0x5F27CDint,
                    0x00D2D3int,
                ][index]
            } else {
                0x666666
            },
        ),
        bar.tag_color(index).alpha == Alpha::Byte(255),
        bar.tab_colors.len() == 9,
{
    assert(0 <= index < 9 ==> bar.tag_color(index) == tab_palette()[index]);
}

/// Whatever the colours of the tags are, a tag that has one is shown in it.
pub proof fn law_a_tag_has_the_color_of_its_place(bar: BarState, index: int)
    ensures
        0 <= index < bar.tab_colors.len() ==> bar.tag_color(index) == bar.tab_colors[index],
        !(0 <= index < bar.tab_colors.len()) ==> has_code(bar.tag_color(index), 0x666666)
            && bar.tag_color(index).alpha == Alpha::Byte(255),
{
}

/// At the start the first tag is active, the window manager has said nothing, the clock is empty and
/// shows seconds once it is read, the layout is the tiled one, the monitor the first one, and the
/// layout selector is closed. The colours are those of the mode.
pub proof fn law_bar_at_the_start(
    mode: ThemeMode,
    connected: bool,
    clock_start: int,
    monitor_start: int,
)
    ensures
        ({
            let bar = BarState::initial(mode, connected, clock_start, monitor_start);
            &&& bar.active_tab == 0
            &&& bar.connected == connected
            &&& bar.monitor is None
            &&& bar.formated_now.len() == 0
            &&& bar.show_seconds
            &&& bar.layout_symbol == seq!['[', ']', '=']
            &&& bar.monitor_num == 0
            &&& !bar.layout_selector_open
            &&& bar.theme_mode == mode
            &&& bar.theme == palette(mode)
            &&& bar.last_clock_update == clock_start
            &&& bar.last_monitor_update == monitor_start
            &&& bar.wf()
        }),
{
    reveal_strlit("[]=");
    assert(DEFAULT_LAYOUT@ =~= seq!['[', ']', '=']);
}

/// What holds of the bar at all times: the colours of its theme are those of its mode, and the
/// symbol of the layout and the number of the monitor are those of the last message, or those of
/// the start where there was none.
pub proof fn law_bar_is_consistent(bar: BarState)
    ensures
        bar.wf() ==> {
            &&& bar.theme == palette(bar.theme_mode)
            &&& bar.monitor matches Some(monitor) ==> {
                &&& bar.layout_symbol == monitor.ltsymbol
                &&& bar.monitor_num == monitor.monitor_num
            }
            &&& bar.monitor is None ==> {
                &&& bar.layout_symbol == seq!['[', ']', '=']
                &&& bar.monitor_num == 0
            }
        },
{
    reveal_strlit("[]=");
    assert(DEFAULT_LAYOUT@ =~= seq!['[', ']', '=']);
}

/// The wall clock is read again 900 milliseconds after it was read last, and the monitors of the
/// system are refreshed again 2 seconds after they were last.
pub proof fn law_periods(bar: BarState, now: int)
    ensures
        bar.clock_due(now) <==> now >= bar.last_clock_update + 900_000_000,
        bar.monitors_due(now) <==> now >= bar.last_monitor_update + 2_000_000_000,
{
}

/// Showing a time changes the text of the clock, which then tells that time, and nothing else.
pub proof fn law_showing_a_time_changes_the_clock_alone(bar: BarState, time: LocalTime)
    ensures
        bar.showing(time).formated_now == time_text(time, bar.show_seconds),
        (BarState { formated_now: bar.formated_now, ..bar.showing(time) }) == bar,
{
}

/// Noting when the wall clock was read, or when the monitors of the system were refreshed, changes
/// that point in time and nothing else.
pub proof fn law_noting_a_time_changes_it_alone(bar: BarState, now: int)
    ensures
        bar.clock_stamped(now).last_clock_update == now,
        (BarState { last_clock_update: bar.last_clock_update, ..bar.clock_stamped(now) }) == bar,
        bar.refreshed(now).last_monitor_update == now,
        (BarState { last_monitor_update: bar.last_monitor_update, ..bar.refreshed(now) }) == bar,
{
}

/// A tick 900 milliseconds or more after the last reading of the wall clock shows what the wall
/// clock says now, with seconds or without as the bar has it. An earlier tick changes nothing.
pub proof fn law_a_due_tick_shows_the_time(bar: BarState, time: LocalTime, now: int)
    ensures
        ({
            let (after, step) = bar.ticked(time, now);
            &&& now >= bar.last_clock_update + 900_000_000 ==> {
                &&& step == TickStep::StampClock
                &&& after.formated_now == time_text(time, bar.show_seconds)
                &&& (BarState { formated_now: bar.formated_now, ..after }) == bar
            }
            &&& now < bar.last_clock_update + 900_000_000 ==> {
                &&& step == TickStep::CheckMonitors
                &&& after == bar
            }
        }),
{
}

/// The later steps of a tick. Noting when the wall clock was read leads on to the monitors of the
/// system. They are refreshed where 2 seconds or more have passed since they were, which is then
/// noted. No step changes anything but the point in time that it notes.
pub proof fn law_steps_of_a_tick(bar: BarState, step: TickStep, now: int)
    ensures
        ({
            let (after, next) = bar.continued(step, now);
            &&& next == TickStep::CheckMonitors <==> step == TickStep::StampClock
            &&& next == TickStep::RefreshMonitors <==> step == TickStep::CheckMonitors && now
                >= bar.last_monitor_update + 2_000_000_000
            &&& next != TickStep::StampClock
            &&& after.last_clock_update == if step == TickStep::StampClock {
                now
            } else {
                bar.last_clock_update
            }
            &&& after.last_monitor_update == if step == TickStep::RefreshMonitors {
                now
            } else {
                bar.last_monitor_update
            }
            &&& (BarState {
                last_clock_update: bar.last_clock_update,
                last_monitor_update: bar.last_monitor_update,
                ..after
            }) == bar
        }),
{
}

/// After a message the bar holds it as it was sent: the status of every tag that it speaks of and
/// of no other, the symbol of the layout and the number of the monitor. But for the active tag, the
/// rest of the bar stays.
pub proof fn law_messages_are_held_as_sent(bar: BarState, info: MonitorState, index: int)
    ensures
        bar.informed(info).monitor == Some(info),
        0 <= index < info.tags.len() ==> bar.informed(info).tag_status(index) == Some(
            info.tags[index],
        ),
        !(0 <= index < info.tags.len()) ==> bar.informed(info).tag_status(index) is None,
        bar.informed(info).layout_symbol == info.ltsymbol,
        bar.informed(info).monitor_num == info.monitor_num,
        (BarState {
            monitor: bar.monitor,
            layout_symbol: bar.layout_symbol,
            monitor_num: bar.monitor_num,
            active_tab: bar.active_tab,
            ..bar.informed(info)
        }) == bar,
{
}

/// The status of a tag is what the message that the bar holds says of it, and nothing else in the
/// bar bears on it.
pub proof fn law_status_is_that_of_the_message(bar: BarState, index: int)
    requires
        bar.monitor is Some,
    ensures
        bar.monitor matches Some(monitor) ==> {
            &&& bar.tag_status(index) is Some <==> 0 <= index < monitor.tags.len()
            &&& bar.tag_status(index) matches Some(status) ==> status == monitor.tags[index]
        },
{
}

/// Before any message nothing is known of any tag.
pub proof fn law_no_tag_is_known_without_a_message(bar: BarState, index: int)
    requires
        bar.monitor is None,
    ensures
        bar.tag_status(index) is None,
        !bar.tag_active(index),
{
}

/// A toggle of the theme leads to the other mode and to the colours of it, and changes nothing else.
pub proof fn law_toggling_the_theme_changes_it_alone(bar: BarState)
    ensures
        bar.theme_toggled().theme_mode != bar.theme_mode,
        bar.theme_toggled().theme == palette(bar.theme_toggled().theme_mode),
        (BarState { theme_mode: bar.theme_mode, theme: bar.theme, ..bar.theme_toggled() }) == bar,
{
}

/// A press of a tag, of the layout selector or of the clock changes what it is about and nothing
/// else.
pub proof fn law_presses_change_one_thing(bar: BarState, index: int, flag: bool)
    ensures
        bar.on_tab(index).active_tab == index,
        (BarState { active_tab: bar.active_tab, ..bar.on_tab(index) }) == bar,
        bar.with_selector(flag).layout_selector_open == flag,
        (BarState { layout_selector_open: bar.layout_selector_open, ..bar.with_selector(flag) })
            == bar,
        bar.with_seconds(flag).show_seconds == flag,
        (BarState { show_seconds: bar.show_seconds, ..bar.with_seconds(flag) }) == bar,
{
}

/// An urgent tag, whatever else it is, has the background and the border of urgent tags, two pixels
/// wide.
pub proof fn law_urgent_look(bar: BarState, index: int, status: TagStatus)
    requires
        bar.tag_status(index) == Some(status),
        status.is_urg,
    ensures
        bar.visuals(index) == (bar.theme.urgent_bg, 20u32, bar.theme.urgent_border),
{
}

/// A filled tag that is not urgent, whatever else it is, has its colour as background and as border,
/// two pixels wide.
pub proof fn law_filled_look(bar: BarState, index: int, status: TagStatus)
    requires
        bar.tag_status(index) == Some(status),
        !status.is_urg,
        status.is_filled,
    ensures
        bar.visuals(index) == (bar.tag_color(index), 20u32, bar.tag_color(index)),
{
}

/// A selected tag that is neither urgent nor filled, occupied or not, has its colour at 70 percent
/// as background, and as border, a pixel and a half wide, its colour as it is.
pub proof fn law_selected_look(bar: BarState, index: int, status: TagStatus)
    requires
        bar.tag_status(index) == Some(status),
        !status.is_urg,
        !status.is_filled,
        status.is_selected,
    ensures
        ({
            let (background, width, border) = bar.visuals(index);
            &&& same_channels(background, bar.tag_color(index))
            &&& background.alpha == Alpha::Percent(70)
            &&& width == 15
            &&& border == bar.tag_color(index)
        }),
{
}

/// A tag that is occupied and nothing else has its colour at 35 percent as background and at 70
/// percent as border, one pixel wide.
pub proof fn law_occupied_look(bar: BarState, index: int, status: TagStatus)
    requires
        bar.tag_status(index) == Some(status),
        !status.is_urg,
        !status.is_filled,
        !status.is_selected,
        status.is_occ,
    ensures
        ({
            let (background, width, border) = bar.visuals(index);
            &&& same_channels(background, bar.tag_color(index))
            &&& background.alpha == Alpha::Percent(35)
            &&& width == 10
            &&& same_channels(border, bar.tag_color(index))
            &&& border.alpha == Alpha::Percent(70)
        }),
{
}

/// A tag that is none of these, or of which nothing is known, has the background of inactive tags
/// and its colour at 90 percent as border, one pixel wide.
pub proof fn law_idle_look(bar: BarState, index: int)
    requires
        bar.tag_status(index) matches Some(status) ==> {
            &&& !status.is_urg
            &&& !status.is_filled
            &&& !status.is_selected
            &&& !status.is_occ
        },
    ensures
        ({
            let (background, width, border) = bar.visuals(index);
            &&& background == bar.theme.tag_inactive_bg
            &&& width == 10
            &&& same_channels(border, bar.tag_color(index))
            &&& border.alpha == Alpha::Percent(90)
        }),
{
}

/// A tag counts as active just where the window manager called it filled, selected or urgent;
/// whether it is occupied does not matter.
pub proof fn law_active_tags(bar: BarState, index: int)
    ensures
        bar.tag_status(index) is None ==> !bar.tag_active(index),
        bar.tag_status(index) matches Some(status) ==> {
            &&& status.is_filled ==> bar.tag_active(index)
            &&& status.is_selected ==> bar.tag_active(index)
            &&& status.is_urg ==> bar.tag_active(index)
            &&& bar.tag_active(index) ==> status.is_filled || status.is_selected || status.is_urg
        },
{
}

/// Whatever is asked for, a command comes about just where there is a way to send it, and it has the
/// type and the parameter that were asked for and the number of the monitor of the bar.
pub proof fn law_commands_say_what_was_asked(bar: XilemBar, command: CommandType, parameter: u32)
    ensures
        bar@.command(command, parameter as int) is Some <==> bar.connected,
        bar@.command(command, parameter as int) matches Some(sent) ==> {
            &&& sent.command == command
            &&& sent.parameter == parameter
            &&& sent.monitor_num == bar.monitor_num
        },
{
}

/// After a message every command, of whatever type, goes to the monitor that the message is about.
pub proof fn law_commands_follow_the_last_message(
    bar: XilemBar,
    info: MonitorInfo,
    command: CommandType,
    parameter: u32,
)
    ensures
        bar@.informed(info@).command(command, parameter as int) is Some <==> bar.connected,
        bar@.informed(info@).command(command, parameter as int) matches Some(sent) ==> {
            &&& sent.command == command
            &&& sent.parameter == parameter
            &&& sent.monitor_num == info.monitor_num
        },
{
}

/// The path of the shared buffer is the last argument, whatever stands before it, but never the name
/// of the program, and where there is no other argument it is empty.
pub proof fn law_last_argument_is_the_path(args: &Vec<String>, path: String)
    requires
        call_ensures(shared_path, (args,), path),
    ensures
        args@.len() <= 1 ==> path@.len() == 0,
        args@.len() > 1 ==> path@ == args@[args@.len() - 1]@,
{
}

} // verus!
