//! Topics: frames that a device pushes without being asked.
use crate::codec::{
    read_battery_status, read_byte, read_connection_status, read_flag, read_led_indicator,
    read_word,
};
use crate::command::{
    Cmd, BATTERY_STATUS_TOPIC, CONNECTION_CHANGE, LAYER_CHANGE, LED_INDICATOR, SLEEP_STATE,
    WPM_UPDATE,
};
use crate::status::{BatteryStatus, ConnectionStatus, LedIndicator};
use crate::wire::{take_byte, take_flag, take_word, value_of};
use vstd::prelude::*;

verus! {

/// A topic frame as a value.
#[verifier::ext_equal]
pub ghost struct TopicView {
    pub cmd: Cmd,
    pub payload: Seq<u8>,
}

/// A raw topic frame (server to host push).
#[derive(Debug)]
pub struct TopicFrame {
    pub cmd: Cmd,
    pub payload: Vec<u8>,
}

impl View for TopicFrame {
    type V = TopicView;

    open spec fn view(&self) -> TopicView {
        TopicView { cmd: self.cmd, payload: self.payload@ }
    }
}

impl Clone for TopicFrame {
    fn clone(&self) -> (copy: TopicFrame)
        ensures
            copy@ == self@,
    {
        let payload: Vec<u8> = self.payload.clone();
        assert(payload@ =~= self.payload@);
        TopicFrame { cmd: self.cmd, payload }
    }
}

/// A decoded topic.
///
/// Topics are best-effort: the link can drop a push, and so can a full event
/// queue. When a current value matters, read it with the matching request.
#[derive(Debug)]
pub enum Event {
    /// Active layer changed.
    LayerChange(u8),
    /// Words-per-minute estimate updated.
    WpmUpdate(u16),
    /// Connection status changed.
    ConnectionChange(ConnectionStatus),
    /// Sleep state changed.
    SleepState(bool),
    /// Host LED indicator (caps/num/scroll lock, ...) changed.
    LedIndicator(LedIndicator),
    /// Battery status changed (BLE firmware only).
    BatteryStatus(BatteryStatus),
    /// A topic this build doesn't recognize, or one whose payload failed to
    /// decode.
    Unknown(TopicFrame),
}

/// A decoded topic as a value.
pub ghost enum EventView {
    LayerChange(u8),
    WpmUpdate(u16),
    ConnectionChange(ConnectionStatus),
    SleepState(bool),
    LedIndicator(LedIndicator),
    BatteryStatus(BatteryStatus),
    Unknown(TopicView),
}

impl View for Event {
    type V = EventView;

    open spec fn view(&self) -> EventView {
        match *self {
            Event::LayerChange(layer) => EventView::LayerChange(layer),
            Event::WpmUpdate(wpm) => EventView::WpmUpdate(wpm),
            Event::ConnectionChange(status) => EventView::ConnectionChange(status),
            Event::SleepState(asleep) => EventView::SleepState(asleep),
            Event::LedIndicator(leds) => EventView::LedIndicator(leds),
            Event::BatteryStatus(status) => EventView::BatteryStatus(status),
            Event::Unknown(frame) => EventView::Unknown(frame@),
        }
    }
}

impl Clone for Event {
    fn clone(&self) -> (copy: Event)
        ensures
            copy@ == self@,
    {
        match self {
            Event::LayerChange(layer) => Event::LayerChange(*layer),
            Event::WpmUpdate(wpm) => Event::WpmUpdate(*wpm),
            Event::ConnectionChange(status) => Event::ConnectionChange(*status),
            Event::SleepState(asleep) => Event::SleepState(*asleep),
            Event::LedIndicator(leds) => Event::LedIndicator(*leds),
            Event::BatteryStatus(status) => Event::BatteryStatus(*status),
            Event::Unknown(frame) => Event::Unknown(frame.clone()),
        }
    }
}

/// The typed event of a recognized topic whose payload decodes. Bytes after the
/// value are ignored: newer firmware may append fields.
pub open spec fn known_event(topic: TopicView) -> Option<EventView> {
    if topic.cmd.raw == LAYER_CHANGE {
        match value_of(take_byte(topic.payload)) {
            Some(layer) => Some(EventView::LayerChange(layer)),
            None => None,
        }
    } else if topic.cmd.raw == WPM_UPDATE {
        match value_of(take_word(topic.payload)) {
            Some(wpm) => Some(EventView::WpmUpdate(wpm)),
            None => None,
        }
    } else if topic.cmd.raw == CONNECTION_CHANGE {
        match value_of(ConnectionStatus::taken(topic.payload)) {
            Some(status) => Some(EventView::ConnectionChange(status)),
            None => None,
        }
    } else if topic.cmd.raw == SLEEP_STATE {
        match value_of(take_flag(topic.payload)) {
            Some(asleep) => Some(EventView::SleepState(asleep)),
            None => None,
        }
    } else if topic.cmd.raw == LED_INDICATOR {
        match value_of(LedIndicator::taken(topic.payload)) {
            Some(leds) => Some(EventView::LedIndicator(leds)),
            None => None,
        }
    } else if topic.cmd.raw == BATTERY_STATUS_TOPIC {
        match value_of(BatteryStatus::taken(topic.payload)) {
            Some(status) => Some(EventView::BatteryStatus(status)),
            None => None,
        }
    } else {
        None
    }
}

/// The event of a topic: the typed one, or the raw frame where there is none.
pub open spec fn event_of(topic: TopicView) -> EventView {
    match known_event(topic) {
        Some(event) => event,
        None => EventView::Unknown(topic),
    }
}

/// The decoded event, or the raw frame where decoding gave none: a topic from
/// newer firmware surfaces instead of being dropped.
pub fn decoded_or_unknown(decoded: Option<Event>, frame: TopicFrame) -> (event: Event)
    ensures
        match decoded {
            Some(known) => event == known,
            None => event == Event::Unknown(frame),
        },
{
    match decoded {
        Some(known) => known,
        None => Event::Unknown(frame),
    }
}

/// Decodes a topic frame into a typed event.
pub fn decode_event(frame: TopicFrame) -> (event: Event)
    ensures
        event@ == event_of(frame@),
{
    let raw: u16 = frame.cmd.raw;
    let payload = frame.payload.as_slice();
    let decoded = if raw == LAYER_CHANGE {
        match read_byte(payload) {
            Some(layer) => Some(Event::LayerChange(layer)),
            None => None,
        }
    } else if raw == WPM_UPDATE {
        match read_word(payload) {
            Some(wpm) => Some(Event::WpmUpdate(wpm)),
            None => None,
        }
    } else if raw == CONNECTION_CHANGE {
        match read_connection_status(payload) {
            Some(status) => Some(Event::ConnectionChange(status)),
            None => None,
        }
    } else if raw == SLEEP_STATE {
        match read_flag(payload) {
            Some(asleep) => Some(Event::SleepState(asleep)),
            None => None,
        }
    } else if raw == LED_INDICATOR {
        match read_led_indicator(payload) {
            Some(leds) => Some(Event::LedIndicator(leds)),
            None => None,
        }
    } else if raw == BATTERY_STATUS_TOPIC {
        match read_battery_status(payload) {
            Some(status) => Some(Event::BatteryStatus(status)),
            None => None,
        }
    } else {
        None
    };
    decoded_or_unknown(decoded, frame)
}

} // verus!
