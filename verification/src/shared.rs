//! What the window manager tells the bar, what the bar asks of it, the watch on the shared
//! buffer between them, and the clock that has the bar look at the time.
use vstd::arithmetic::power2::{lemma_pow2_adds, lemma_pow2_strictly_increases, pow2};
use vstd::prelude::*;

verus! {

/// What the window manager says of one workspace tag.
#[derive(Copy, Clone, PartialEq, Eq, Structural, Debug)]
pub struct TagStatus {
    pub is_selected: bool,
    pub is_urg: bool,
    pub is_filled: bool,
    pub is_occ: bool,
}

/// What the window manager says of the monitor that the bar is on.
#[derive(Debug)]
pub struct MonitorInfo {
    pub monitor_num: i32,
    pub ltsymbol: String,
    pub tag_status_vec: Vec<TagStatus>,
}

/// The model of `MonitorInfo`.
pub struct MonitorState {
    pub monitor_num: int,
    pub ltsymbol: Seq<char>,
    pub tags: Seq<TagStatus>,
}

impl View for MonitorInfo {
    type V = MonitorState;

    open spec fn view(&self) -> MonitorState {
        MonitorState {
            monitor_num: self.monitor_num as int,
            ltsymbol: self.ltsymbol@,
            tags: self.tag_status_vec@,
        }
    }
}

/// A message of the window manager, with the time at which it was written.
#[derive(Debug)]
pub struct SharedMessage {
    pub timestamp: u128,
    pub monitor_info: MonitorInfo,
}

/// What a command asks for.
#[derive(Copy, Clone, PartialEq, Eq, Structural, Debug)]
pub enum CommandType {
    ViewTag,
    ToggleTag,
    SetLayout,
}

/// A command to the window manager.
#[derive(Copy, Clone, PartialEq, Eq, Structural, Debug)]
pub struct SharedCommand {
    pub command: CommandType,
    /// The bit of a tag, or the index of a layout.
    pub parameter: u32,
    pub monitor_num: i32,
}

/// The bit of a tag: two to the power of its index.
pub open spec fn tag_bit(index: int) -> int {
    pow2(index as nat) as int
}

/// The bit of a tag.
pub(crate) fn bit_of_tag(index: usize) -> (bit: u32)
    requires
        index < 32,
    ensures
        bit == tag_bit(index as int),
{
    let shift: u32 = index as u32;
    proof {
        vstd::arithmetic::power2::lemma2_to64();
        if shift < 31 {
            lemma_pow2_strictly_increases(shift as nat, 31);
        }
        vstd::bits::lemma_u32_shl_is_mul(1, shift);
    }
    1u32 << shift
}

/// No two tags share a bit.
pub proof fn law_tag_bits_differ(one: nat, other: nat)
    requires
        one != other,
    ensures
        tag_bit(one as int) != tag_bit(other as int),
{
    if one < other {
        lemma_pow2_strictly_increases(one, other);
    } else {
        lemma_pow2_strictly_increases(other, one);
    }
}

/// What the background workers report to the bar.
#[derive(Debug)]
pub enum WorkerEvent {
    /// Another `TICK_PERIOD_SECS` seconds have passed.
    Tick,
    /// A message came through the shared buffer.
    Shared(SharedMessage),
    /// The shared buffer failed.
    SharedError(String),
}

/// What the clock of the bar has seen.
#[derive(Copy, Clone, PartialEq, Eq, Structural, Debug)]
pub enum ClockEvent {
    /// The clock begins.
    Started,
    /// A period is over.
    Elapsed,
    /// A tick was handed to the bar, which took it or is gone.
    Posted { delivered: bool },
}

/// What the clock of the bar does next.
#[derive(Debug)]
pub enum ClockAction {
    /// Wait for the end of a period of so many seconds, the first of which is over at once.
    Await { period_secs: u64 },
    /// Report to the bar.
    Post(WorkerEvent),
    /// End.
    Stop,
}

/// What the clock of the bar does next: it ticks once a period, until the bar is gone.
pub fn clock_step(event: ClockEvent) -> (action: ClockAction)
    ensures
        action == match event {
            ClockEvent::Started => ClockAction::Await { period_secs: TICK_PERIOD_SECS },
            ClockEvent::Elapsed => ClockAction::Post(WorkerEvent::Tick),
            ClockEvent::Posted { delivered } => if delivered {
                ClockAction::Await { period_secs: TICK_PERIOD_SECS }
            } else {
                ClockAction::Stop
            },
        },
{
    match event {
        ClockEvent::Started => ClockAction::Await { period_secs: TICK_PERIOD_SECS },
        ClockEvent::Elapsed => ClockAction::Post(WorkerEvent::Tick),
        ClockEvent::Posted { delivered } => {
            if delivered {
                ClockAction::Await { period_secs: TICK_PERIOD_SECS }
            } else {
                ClockAction::Stop
            }
        },
    }
}

/// What the watch on the shared buffer has seen.
#[derive(Debug)]
pub enum WatchEvent {
    /// The watch begins, with a shared buffer or without one.
    Started { connected: bool },
    /// Waiting for a message ended: whether there is one, or the error.
    Waited(Result<bool, String>),
    /// The latest message was read, where there was one to read.
    Read(Option<SharedMessage>),
    /// A report was handed to the bar, which took it or is gone.
    Posted { delivered: bool },
}

/// What the watch on the shared buffer does next.
#[derive(Debug)]
pub enum WatchAction {
    /// Wait for a message, for at most so many seconds.
    Wait { timeout_secs: u64 },
    /// Read the latest message.
    Read,
    /// Report to the bar.
    Post(WorkerEvent),
    /// Report to the bar, and end.
    PostAndStop(WorkerEvent),
    /// End.
    Stop,
}

/// How long the watch waits for a message at a time, in seconds.
pub const WAIT_TIMEOUT_SECS: u64 = 2;

/// How much time passes between two ticks, in seconds.
pub const TICK_PERIOD_SECS: u64 = 1;

/// What the bar is told where there is no shared buffer to watch.
pub const EMPTY_BUFFER: &'static str = "Empty shared buffer";

/// The watch on the shared buffer.
#[derive(Debug)]
pub struct SharedWatcher {
    /// The timestamp of the last message that was reported, zero before the first.
    pub prev_ts: u128,
}

/// What the watch makes of an event after a last report of `prev_ts`: the timestamp of the last
/// report from then on, and the timestamp of the message that the event has it report, where there
/// is one. A message that was read is news unless it has the timestamp of the last report.
pub open spec fn watched(prev_ts: u128, event: WatchEvent) -> (u128, Option<u128>) {
    match event {
        WatchEvent::Read(Some(message)) => if message.timestamp != prev_ts {
            (message.timestamp, Some(message.timestamp))
        } else {
            (prev_ts, None)
        },
        _ => (prev_ts, None),
    }
}

/// The timestamp of the message that an action reports, where it reports one.
pub open spec fn reported_by(action: WatchAction) -> Option<u128> {
    match action {
        WatchAction::Post(WorkerEvent::Shared(message)) => Some(message.timestamp),
        WatchAction::PostAndStop(WorkerEvent::Shared(message)) => Some(message.timestamp),
        _ => None,
    }
}

/// The wait for a message.
pub open spec fn awaited() -> WatchAction {
    WatchAction::Wait { timeout_secs: WAIT_TIMEOUT_SECS }
}

/// Whether an action is a last report of the given error.
pub open spec fn is_last_error(action: WatchAction, text: Seq<char>) -> bool {
    match action {
        WatchAction::PostAndStop(WorkerEvent::SharedError(error)) => error@ == text,
        _ => false,
    }
}

impl SharedWatcher {
    /// A watch that has reported nothing yet.
    pub fn new() -> (watcher: SharedWatcher)
        ensures
            watcher.prev_ts == 0,
    {
        SharedWatcher { prev_ts: 0 }
    }

    /// Takes in what the watch has seen and says what it does next. A message is reported unless
    /// it has the timestamp of the last one that was.
    pub fn step(&mut self, event: WatchEvent) -> (action: WatchAction)
        ensures
            (final(self).prev_ts, reported_by(action)) == watched(old(self).prev_ts, event),
            match event {
                WatchEvent::Read(Some(message)) => final(self).prev_ts == message.timestamp,
                _ => final(self).prev_ts == old(self).prev_ts,
            },
            match event {
                WatchEvent::Started { connected: false } => {
                    &&& action matches WatchAction::PostAndStop(WorkerEvent::SharedError(text))
                    &&& text@ == "Empty shared buffer"@
                },
                WatchEvent::Waited(Ok(true)) => action is Read,
                WatchEvent::Waited(Err(error)) => action == WatchAction::PostAndStop(
                    WorkerEvent::SharedError(error),
                ),
                WatchEvent::Read(Some(message)) => action == if message.timestamp == old(self).prev_ts {
                    WatchAction::Wait { timeout_secs: 2 }
                } else {
                    WatchAction::Post(WorkerEvent::Shared(message))
                },
                WatchEvent::Posted { delivered: false } => action is Stop,
                _ => action == (WatchAction::Wait { timeout_secs: 2 }),
            },
            match event {
                WatchEvent::Started { connected } => if connected {
                    action == awaited()
                } else {
                    is_last_error(action, EMPTY_BUFFER@)
                },
                WatchEvent::Waited(Ok(ready)) => action == if ready {
                    WatchAction::Read
                } else {
                    awaited()
                },
                WatchEvent::Waited(Err(error)) => is_last_error(action, error@),
                WatchEvent::Read(Some(message)) => action == if watched(
                    old(self).prev_ts,
                    event,
                ).1 is Some {
                    WatchAction::Post(WorkerEvent::Shared(message))
                } else {
                    awaited()
                },
                WatchEvent::Read(None) => action == awaited(),
                WatchEvent::Posted { delivered } => action == if delivered {
                    awaited()
                } else {
                    WatchAction::Stop
                },
            },
    {
        match event {
            WatchEvent::Started { connected } => {
                if connected {
                    WatchAction::Wait { timeout_secs: WAIT_TIMEOUT_SECS }
                } else {
                    WatchAction::PostAndStop(WorkerEvent::SharedError(EMPTY_BUFFER.to_owned()))
                }
            },
            WatchEvent::Waited(Ok(ready)) => {
                if ready {
                    WatchAction::Read
                } else {
                    WatchAction::Wait { timeout_secs: WAIT_TIMEOUT_SECS }
                }
            },
            WatchEvent::Waited(Err(error)) => {
                WatchAction::PostAndStop(WorkerEvent::SharedError(error))
            },
            WatchEvent::Read(Some(message)) => {
                if self.prev_ts != message.timestamp {
                    self.prev_ts = message.timestamp;
                    WatchAction::Post(WorkerEvent::Shared(message))
                } else {
                    WatchAction::Wait { timeout_secs: WAIT_TIMEOUT_SECS }
                }
            },
            WatchEvent::Read(None) => WatchAction::Wait { timeout_secs: WAIT_TIMEOUT_SECS },
            WatchEvent::Posted { delivered } => {
                if delivered {
                    WatchAction::Wait { timeout_secs: WAIT_TIMEOUT_SECS }
                } else {
                    WatchAction::Stop
                }
            },
        }
    }
}

/// The timestamp of the last report once a watch has seen `events`.
pub open spec fn last_report(prev_ts: u128, events: Seq<WatchEvent>) -> u128
    decreases events.len(),
{
    if events.len() == 0 {
        prev_ts
    } else {
        watched(last_report(prev_ts, events.drop_last()), events.last()).0
    }
}

/// The timestamps of the messages that a watch reports while it sees `events`, in order.
pub open spec fn reported(prev_ts: u128, events: Seq<WatchEvent>) -> Seq<u128>
    decreases events.len(),
{
    if events.len() == 0 {
        seq![]
    } else {
        let before = events.drop_last();
        match watched(last_report(prev_ts, before), events.last()).1 {
            Some(timestamp) => reported(prev_ts, before).push(timestamp),
            None => reported(prev_ts, before),
        }
    }
}

/// The timestamp of the last message among `events` that was read, or `default` where none was.
pub open spec fn last_read(default: u128, events: Seq<WatchEvent>) -> u128
    decreases events.len(),
{
    if events.len() == 0 {
        default
    } else {
        match events.last() {
            WatchEvent::Read(Some(message)) => message.timestamp,
            _ => last_read(default, events.drop_last()),
        }
    }
}

proof fn lemma_last_report(prev_ts: u128, events: Seq<WatchEvent>)
    ensures
        last_report(prev_ts, events) == if reported(prev_ts, events).len() > 0 {
            reported(prev_ts, events).last()
        } else {
            prev_ts
        },
    decreases events.len(),
{
    if events.len() > 0 {
        lemma_last_report(prev_ts, events.drop_last());
    }
}

/// Whatever a watch sees, it never reports the same message twice in a row, nor the one before its
/// first report again.
pub proof fn law_reports_do_not_repeat(prev_ts: u128, events: Seq<WatchEvent>)
    ensures
        reported(prev_ts, events).len() > 0 ==> reported(prev_ts, events)[0] != prev_ts,
        forall|i: int|
            0 < i < reported(prev_ts, events).len() ==> reported(prev_ts, events)[i - 1]
                != #[trigger] reported(prev_ts, events)[i],
    decreases events.len(),
{
    if events.len() > 0 {
        law_reports_do_not_repeat(prev_ts, events.drop_last());
        lemma_last_report(prev_ts, events.drop_last());
    }
}

/// Whatever a watch sees, it misses no news: the last message that was read is the last that it
/// reported.
pub proof fn law_last_read_is_last_reported(prev_ts: u128, events: Seq<WatchEvent>)
    ensures
        last_report(prev_ts, events) == last_read(prev_ts, events),
        last_read(prev_ts, events) == if reported(prev_ts, events).len() > 0 {
            reported(prev_ts, events).last()
        } else {
            prev_ts
        },
    decreases events.len(),
{
    lemma_last_report(prev_ts, events);
    if events.len() > 0 {
        law_last_read_is_last_reported(prev_ts, events.drop_last());
    }
}

/// The first tag has the bit one, and every other one twice that of the tag before it.
pub proof fn law_tag_bits_double(index: int)
    requires
        0 <= index,
    ensures
        tag_bit(0) == 1,
        tag_bit(index + 1) == 2 * tag_bit(index),
{
    vstd::arithmetic::power2::lemma2_to64();
    lemma_pow2_adds(1, index as nat);
}

/// The model of what is said of a monitor has its number, the symbol of its layout and the status of
/// each of its tags.
pub proof fn law_monitor_shows_its_fields(info: MonitorInfo)
    ensures
        info@.monitor_num == info.monitor_num,
        info@.ltsymbol == info.ltsymbol@,
        info@.tags.len() == info.tag_status_vec@.len(),
        forall|i: int|
            0 <= i < info.tag_status_vec@.len() ==> #[trigger] info@.tags[i]
                == info.tag_status_vec@[i],
{
}

/// The clock waits for a second, reports a tick once it is over, and does so again as long as the
/// bar takes the ticks; once the bar is gone it ends.
pub proof fn law_clock_ticks_every_second(event: ClockEvent, action: ClockAction)
    requires
        call_ensures(clock_step, (event,), action),
    ensures
        action is Stop <==> event == (ClockEvent::Posted { delivered: false }),
        action is Post <==> event == ClockEvent::Elapsed,
        action matches ClockAction::Post(report) ==> report is Tick,
        action matches ClockAction::Await { period_secs } ==> period_secs == 1,
{
}

/// A message that was read is remembered by its timestamp, whether it is news or not, and it is
/// reported just where that differs from the one remembered before. Nothing else is remembered or
/// reported.
pub proof fn law_read_messages_are_remembered(prev_ts: u128, event: WatchEvent)
    ensures
        match (event, watched(prev_ts, event)) {
            (WatchEvent::Read(Some(message)), (remembered, news)) => {
                &&& remembered == message.timestamp
                &&& news is Some <==> message.timestamp != prev_ts
                &&& news matches Some(timestamp) ==> timestamp == message.timestamp
            },
            (_, (remembered, news)) => remembered == prev_ts && news is None,
        },
{
}

/// Reading a message a second time right after it was read is no news.
pub proof fn law_no_message_is_news_twice(prev_ts: u128, message: SharedMessage)
    ensures
        ({
            let read = WatchEvent::Read(Some(message));
            let (remembered, news) = watched(prev_ts, read);
            let (still, again) = watched(remembered, read);
            still == remembered && again is None
        }),
{
}

/// A watch over a sequence of events goes on where the watch over those before them ended.
pub proof fn law_a_watch_goes_on(prev_ts: u128, first: Seq<WatchEvent>, event: WatchEvent)
    ensures
        last_report(prev_ts, seq![]) == prev_ts,
        reported(prev_ts, seq![]).len() == 0,
        last_report(prev_ts, first.push(event)) == match event {
            WatchEvent::Read(Some(message)) => message.timestamp,
            _ => last_report(prev_ts, first),
        },
        reported(prev_ts, first.push(event)) == match event {
            WatchEvent::Read(Some(message)) => if message.timestamp == last_report(prev_ts, first) {
                reported(prev_ts, first)
            } else {
                reported(prev_ts, first).push(message.timestamp)
            },
            _ => reported(prev_ts, first),
        },
{
    assert(first.push(event).drop_last() =~= first);
}

/// What a report of the watch is about: a message counts by its timestamp, in a last report too, and
/// nothing but a message counts.
pub proof fn law_reports_are_about_messages(message: SharedMessage, error: String, action: WatchAction)
    ensures
        reported_by(WatchAction::Post(WorkerEvent::Shared(message))) == Some(message.timestamp),
        reported_by(WatchAction::PostAndStop(WorkerEvent::Shared(message))) == Some(
            message.timestamp,
        ),
        reported_by(WatchAction::PostAndStop(WorkerEvent::SharedError(error))) is None,
        is_last_error(WatchAction::PostAndStop(WorkerEvent::SharedError(error)), error@),
        action !is PostAndStop ==> !is_last_error(action, error@),
        action is Wait || action is Read || action is Stop ==> reported_by(action) is None,
        awaited() == (WatchAction::Wait { timeout_secs: 2 }),
{
}

} // verus!
