use vstd::prelude::*;
use crate::geometry::{flip, flipped, scale, scaled, Geometry};

verus! {

/// Event type of a synchronization marker.
pub const EV_SYN: u16 = 0;

/// Event type of an absolute-axis sample.
pub const EV_ABS: u16 = 3;

/// Absolute code: the slot, used here as the finger id.
pub const ABS_MT_SLOT: u16 = 47;

/// Absolute code: major axis of the contact; ignored.
pub const ABS_MT_TOUCH_MAJOR: u16 = 48;

/// Absolute code read as the contact size (possibly not the right field).
pub const ABS_MT_TOUCH_MINOR: u16 = 49;

/// Absolute code: orientation of the contact; ignored.
pub const ABS_MT_ORIENTATION: u16 = 52;

/// Absolute code: horizontal position.
pub const ABS_MT_POSITION_X: u16 = 53;

/// Absolute code: vertical position; completes a sample.
pub const ABS_MT_POSITION_Y: u16 = 54;

/// Absolute code: tracking id of the contact, `-1` on release.
pub const ABS_MT_TRACKING_ID: u16 = 57;

/// Absolute code: pressure of the contact; ignored.
pub const ABS_MT_PRESSURE: u16 = 58;

/// One raw kernel input event: its type, code and value.
#[derive(Clone, Copy, Debug, PartialEq, Eq, Structural)]
pub struct RawEvent {
    pub event_type: u16,
    pub code: u16,
    pub value: i32,
}

/// A touch as handed to the consumer, in display coordinates.
#[derive(Clone, Copy, Debug, PartialEq, Eq, Structural)]
pub enum MultitouchEvent {
    Touch { gesture_seq: u16, finger_id: u16, y: u16, x: u16 },
    Unknown,
}

impl Default for MultitouchEvent {
    fn default() -> (r: MultitouchEvent)
        ensures
            r == MultitouchEvent::Unknown,
    {
        MultitouchEvent::Unknown
    }
}

/// What handling one raw event amounted to.
#[derive(Clone, Copy, Debug, PartialEq, Eq, Structural)]
pub enum Reaction {
    /// State was updated or the event ignored; nothing to report.
    Quiet,
    /// This touch was handed to the callback.
    Emitted(MultitouchEvent),
    /// In verbose mode: an absolute-axis event with an unrecognized code.
    UnknownCode(RawEvent),
    /// In verbose mode: an event of an unrecognized type.
    UnknownType(RawEvent),
}

/// The decoder's numeric state, as held in the handler's public fields.
pub ghost struct TouchState {
    pub touch_id: u16,
    pub touch_size: u8,
    pub touching: bool,
    pub x: u16,
    pub y: u16,
    pub finger_id: u16,
}

/// A vertical-position sample: the only event that emits a touch.
pub open spec fn is_vertical(ev: RawEvent) -> bool {
    ev.event_type == EV_ABS && ev.code == ABS_MT_POSITION_Y
}

/// The absolute-axis codes that the decoder acts on or ignores on purpose.
pub open spec fn is_known_abs_code(code: u16) -> bool {
    code == ABS_MT_SLOT || code == ABS_MT_POSITION_X || code == ABS_MT_POSITION_Y || code
        == ABS_MT_TOUCH_MAJOR || code == ABS_MT_TOUCH_MINOR || code == ABS_MT_ORIENTATION || code
        == ABS_MT_PRESSURE || code == ABS_MT_TRACKING_ID
}

/// An event that the decoder does not recognize, by code or by type.
pub open spec fn is_unrecognized(ev: RawEvent) -> bool {
    (ev.event_type == EV_ABS && !is_known_abs_code(ev.code)) || (ev.event_type != EV_ABS
        && ev.event_type != EV_SYN)
}

/// The touch that a state stands for, scaled into display space.
pub open spec fn touch_of(s: TouchState, g: Geometry) -> MultitouchEvent {
    MultitouchEvent::Touch {
        gesture_seq: s.touch_id,
        finger_id: s.finger_id,
        y: scaled(s.y as int, g.display_height as int, g.sensor_height as int) as u16,
        x: scaled(s.x as int, g.display_width as int, g.sensor_width as int) as u16,
    }
}

/// The state after one raw event.
pub open spec fn next_state(s: TouchState, g: Geometry, ev: RawEvent) -> TouchState {
    if ev.event_type != EV_ABS {
        s
    } else if ev.code == ABS_MT_SLOT {
        TouchState { finger_id: ev.value as u16, ..s }
    } else if ev.code == ABS_MT_POSITION_X {
        TouchState { x: flipped(g.sensor_width as int, ev.value as int) as u16, ..s }
    } else if ev.code == ABS_MT_POSITION_Y {
        TouchState { y: flipped(g.sensor_height as int, ev.value as int) as u16, ..s }
    } else if ev.code == ABS_MT_TOUCH_MINOR {
        TouchState { touch_size: ev.value as u8, ..s }
    } else if ev.code == ABS_MT_TRACKING_ID {
        if ev.value == -1 {
            TouchState { touching: false, ..s }
        } else {
            TouchState { touch_id: ev.value as u16, touching: true, ..s }
        }
    } else {
        s
    }
}

/// The touch emitted on one raw event, if any.
pub open spec fn emission(s: TouchState, g: Geometry, ev: RawEvent) -> Option<MultitouchEvent> {
    if is_vertical(ev) {
        Some(touch_of(next_state(s, g, ev), g))
    } else {
        None
    }
}

/// What handling one raw event amounts to.
pub open spec fn reaction(s: TouchState, g: Geometry, verbose: bool, ev: RawEvent) -> Reaction {
    if is_vertical(ev) {
        Reaction::Emitted(touch_of(next_state(s, g, ev), g))
    } else if verbose && ev.event_type == EV_ABS && !is_known_abs_code(ev.code) {
        Reaction::UnknownCode(ev)
    } else if verbose && ev.event_type != EV_ABS && ev.event_type != EV_SYN {
        Reaction::UnknownType(ev)
    } else {
        Reaction::Quiet
    }
}

/// The state after a sequence of raw events.
pub open spec fn run(s: TouchState, g: Geometry, evs: Seq<RawEvent>) -> TouchState
    decreases evs.len(),
{
    if evs.len() == 0 {
        s
    } else {
        run(next_state(s, g, evs[0]), g, evs.drop_first())
    }
}

/// The touches emitted, in order, on a sequence of raw events.
pub open spec fn emitted(s: TouchState, g: Geometry, evs: Seq<RawEvent>) -> Seq<MultitouchEvent>
    decreases evs.len(),
{
    if evs.len() == 0 {
        seq![]
    } else {
        let rest = emitted(next_state(s, g, evs[0]), g, evs.drop_first());
        match emission(s, g, evs[0]) {
            Some(e) => seq![e] + rest,
            None => rest,
        }
    }
}

/// Decodes the event stream of one multi-touch device and hands each
/// completed touch to a callback.
pub struct MultitouchHandler<F> {
    pub name: String,
    pub last_touch_id: u16,
    pub last_touch_size: u8,
    pub currently_touching: bool,
    pub last_x: u16,
    pub last_y: u16,
    pub last_finger_id: u16,
    callback: F,
    verbose: bool,
    geometry: Geometry,
}

impl<F: Fn(MultitouchEvent)> MultitouchHandler<F> {
    /// The decoder state held in the public fields.
    pub closed spec fn state(&self) -> TouchState {
        TouchState {
            touch_id: self.last_touch_id,
            touch_size: self.last_touch_size,
            touching: self.currently_touching,
            x: self.last_x,
            y: self.last_y,
            finger_id: self.last_finger_id,
        }
    }

    /// The device name used in diagnostics.
    pub closed spec fn label(&self) -> Seq<char> {
        self.name@
    }

    /// The sensor and display sizes that coordinates are mapped between.
    pub closed spec fn geometry_spec(&self) -> Geometry {
        self.geometry
    }

    /// Whether unrecognized events are reported.
    pub closed spec fn is_verbose(&self) -> bool {
        self.verbose
    }

    /// The sink that receives each completed touch.
    pub closed spec fn callback_spec(&self) -> F {
        self.callback
    }

    /// The geometry is valid, the stored coordinates lie on the sensor, and
    /// the callback accepts every touch.
    pub closed spec fn wf(&self) -> bool {
        &&& self.geometry.wf()
        &&& self.last_x <= self.geometry.sensor_width
        &&& self.last_y <= self.geometry.sensor_height
        &&& forall|e: MultitouchEvent| self.callback.requires((e,))
    }

    /// A handler for the reMarkable's touch layer, with all state zeroed and
    /// the name "MT".
    pub fn get_instance(verbose: bool, callback: F) -> (r: MultitouchHandler<F>)
        requires
            forall|e: MultitouchEvent| callback.requires((e,)),
        ensures
            r.wf(),
            r.label() == "MT"@,
            r.state() == (TouchState {
                touch_id: 0,
                touch_size: 0,
                touching: false,
                x: 0,
                y: 0,
                finger_id: 0,
            }),
            r.is_verbose() == verbose,
            r.callback_spec() == callback,
            r.geometry_spec() == Geometry::remarkable_spec(),
    {
        Self::with_geometry(verbose, callback, Geometry::remarkable())
    }

    /// A handler for the given geometry, with all state zeroed and the name
    /// "MT".
    pub fn with_geometry(verbose: bool, callback: F, geometry: Geometry) -> (r: MultitouchHandler<F>)
        requires
            geometry.wf(),
            forall|e: MultitouchEvent| callback.requires((e,)),
        ensures
            r.wf(),
            r.label() == "MT"@,
            r.state() == (TouchState {
                touch_id: 0,
                touch_size: 0,
                touching: false,
                x: 0,
                y: 0,
                finger_id: 0,
            }),
            r.is_verbose() == verbose,
            r.callback_spec() == callback,
            r.geometry_spec() == geometry,
    {
        MultitouchHandler {
            name: "MT".to_owned(),
            currently_touching: false,
            last_finger_id: 0,
            last_touch_id: 0,
            last_touch_size: 0,
            last_x: 0,
            last_y: 0,
            callback,
            verbose,
            geometry,
        }
    }

    /// Records the device's name; the device itself is opened and polled
    /// by the caller.
    pub fn on_init(&mut self, name: String)
        ensures
            final(self).label() == name@,
            final(self).state() == old(self).state(),
            final(self).geometry_spec() == old(self).geometry_spec(),
            final(self).is_verbose() == old(self).is_verbose(),
            final(self).callback_spec() == old(self).callback_spec(),
            old(self).wf() ==> final(self).wf(),
    {
        self.name = name;
    }

    /// Handles one raw event: updates the state and, on a vertical-position
    /// sample, hands the completed touch to the callback.
    pub fn on_event(&mut self, ev: RawEvent) -> (r: Reaction)
        requires
            old(self).wf(),
        ensures
            final(self).wf(),
            final(self).state() == next_state(old(self).state(), old(self).geometry_spec(), ev),
            r == reaction(old(self).state(), old(self).geometry_spec(), old(self).is_verbose(), ev),
            r matches Reaction::Emitted(e) ==> call_ensures(old(self).callback_spec(), (e,), ()),
            final(self).label() == old(self).label(),
            final(self).geometry_spec() == old(self).geometry_spec(),
            final(self).is_verbose() == old(self).is_verbose(),
            final(self).callback_spec() == old(self).callback_spec(),
    {
        if ev.event_type == EV_SYN {
            Reaction::Quiet
        } else if ev.event_type == EV_ABS {
            if ev.code == ABS_MT_SLOT {
                self.last_finger_id = ev.value as u16;
                Reaction::Quiet
            } else if ev.code == ABS_MT_POSITION_X {
                self.last_x = flip(self.geometry.sensor_width, ev.value);
                Reaction::Quiet
            } else if ev.code == ABS_MT_POSITION_Y {
                self.last_y = flip(self.geometry.sensor_height, ev.value);
                let touch = MultitouchEvent::Touch {
                    gesture_seq: self.last_touch_id,
                    finger_id: self.last_finger_id,
                    y: scale(self.last_y, self.geometry.display_height, self.geometry.sensor_height),
                    x: scale(self.last_x, self.geometry.display_width, self.geometry.sensor_width),
                };
                (self.callback)(touch);
                Reaction::Emitted(touch)
            } else if ev.code == ABS_MT_TOUCH_MAJOR || ev.code == ABS_MT_ORIENTATION || ev.code
                == ABS_MT_PRESSURE {
                Reaction::Quiet
            } else if ev.code == ABS_MT_TOUCH_MINOR {
                self.last_touch_size = ev.value as u8;
                Reaction::Quiet
            } else if ev.code == ABS_MT_TRACKING_ID {
                if ev.value == -1 {
                    self.currently_touching = false;
                } else {
                    self.last_touch_id = ev.value as u16;
                    self.currently_touching = true;
                }
                Reaction::Quiet
            } else if self.verbose {
                Reaction::UnknownCode(ev)
            } else {
                Reaction::Quiet
            }
        } else if self.verbose {
            Reaction::UnknownType(ev)
        } else {
            Reaction::Quiet
        }
    }
}

} // verus!
