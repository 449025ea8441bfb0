use vstd::prelude::*;
use crate::geometry::{flipped, scaled, Geometry};
use crate::multitouch::{
    emission, emitted, is_unrecognized, is_vertical, next_state, reaction, touch_of,
    MultitouchEvent, RawEvent, Reaction, TouchState, ABS_MT_POSITION_X, ABS_MT_POSITION_Y,
    ABS_MT_SLOT, ABS_MT_TRACKING_ID, EV_ABS,
};

verus! {

/// An absolute-axis event with the given code and value.
pub open spec fn abs_event(code: u16, value: i32) -> RawEvent {
    RawEvent { event_type: EV_ABS, code, value }
}

/// A sequence of events without a vertical-position sample emits nothing.
pub proof fn lemma_no_vertical_no_emission(s: TouchState, g: Geometry, evs: Seq<RawEvent>)
    requires
        forall|i: int| 0 <= i < evs.len() ==> !is_vertical(#[trigger] evs[i]),
    ensures
        emitted(s, g, evs) == Seq::<MultitouchEvent>::empty(),
    decreases evs.len(),
{
    if evs.len() > 0 {
        let rest = evs.drop_first();
        assert forall|i: int| 0 <= i < rest.len() implies !is_vertical(#[trigger] rest[i]) by {
            assert(rest[i] == evs[i + 1]);
        }
        assert(!is_vertical(evs[0]));
        lemma_no_vertical_no_emission(next_state(s, g, evs[0]), g, rest);
    }
}

/// A finger id, then a horizontal and a vertical sample on the sensor, emit
/// exactly one touch: the active tracking id, that finger id, and both
/// coordinates mirrored and scaled into display space, rounding down.
pub proof fn lemma_finger_then_position(s: TouchState, g: Geometry, f: i32, h: i32, v: i32)
    requires
        g.wf(),
        0 <= h <= g.sensor_width,
        0 <= v <= g.sensor_height,
    ensures
        emitted(
            s,
            g,
            seq![abs_event(ABS_MT_SLOT, f), abs_event(ABS_MT_POSITION_X, h), abs_event(ABS_MT_POSITION_Y, v)],
        ) == seq![
            MultitouchEvent::Touch {
                gesture_seq: s.touch_id,
                finger_id: f as u16,
                y: ((g.sensor_height - v) * g.display_height / g.sensor_height as int) as u16,
                x: ((g.sensor_width - h) * g.display_width / g.sensor_width as int) as u16,
            },
        ],
{
    let evs = seq![abs_event(ABS_MT_SLOT, f), abs_event(ABS_MT_POSITION_X, h), abs_event(ABS_MT_POSITION_Y, v)];
    let s1 = next_state(s, g, evs[0]);
    let s2 = next_state(s1, g, evs[1]);
    let s3 = next_state(s2, g, evs[2]);
    assert(evs.drop_first() =~= seq![evs[1], evs[2]]);
    assert(evs.drop_first().drop_first() =~= seq![evs[2]]);
    assert(evs.drop_first().drop_first().drop_first() =~= Seq::<RawEvent>::empty());
    assert(s3.x as int == g.sensor_width - h);
    assert(s3.y as int == g.sensor_height - v);
    assert(emitted(s3, g, Seq::<RawEvent>::empty()) == Seq::<MultitouchEvent>::empty());
    assert(emitted(s2, g, seq![evs[2]]) =~= seq![touch_of(s3, g)]);
    assert(emitted(s1, g, seq![evs[1], evs[2]]) =~= seq![touch_of(s3, g)]);
}

/// A released tracking id (`-1`) clears the touching flag; any other value
/// becomes the active tracking id and sets the flag. Neither emits a touch
/// or changes another part of the state.
pub proof fn lemma_tracking_id(s: TouchState, g: Geometry, v: i32)
    ensures
        emission(s, g, abs_event(ABS_MT_TRACKING_ID, v)) is None,
        v == -1 ==> next_state(s, g, abs_event(ABS_MT_TRACKING_ID, v)) == (TouchState {
            touching: false,
            ..s
        }),
        v != -1 ==> next_state(s, g, abs_event(ABS_MT_TRACKING_ID, v)) == (TouchState {
            touch_id: v as u16,
            touching: true,
            ..s
        }),
{
}

/// Two vertical samples in a row emit two touches that both use the last
/// horizontal coordinate held before them.
pub proof fn lemma_repeated_vertical(s: TouchState, g: Geometry, a: i32, b: i32)
    ensures
        emitted(s, g, seq![abs_event(ABS_MT_POSITION_Y, a), abs_event(ABS_MT_POSITION_Y, b)]) == seq![
            touch_of(TouchState { y: flipped(g.sensor_height as int, a as int) as u16, ..s }, g),
            touch_of(TouchState { y: flipped(g.sensor_height as int, b as int) as u16, ..s }, g),
        ],
{
    let evs = seq![abs_event(ABS_MT_POSITION_Y, a), abs_event(ABS_MT_POSITION_Y, b)];
    let s1 = next_state(s, g, evs[0]);
    let s2 = next_state(s1, g, evs[1]);
    assert(evs.drop_first() =~= seq![evs[1]]);
    assert(evs.drop_first().drop_first() =~= Seq::<RawEvent>::empty());
    assert(emitted(s2, g, Seq::<RawEvent>::empty()) == Seq::<MultitouchEvent>::empty());
    assert(emitted(s1, g, seq![evs[1]]) =~= seq![touch_of(s2, g)]);
}

/// An unrecognized event leaves the state alone and emits no touch; it is
/// reported if and only if the handler is verbose.
pub proof fn lemma_unrecognized_is_quiet(s: TouchState, g: Geometry, verbose: bool, ev: RawEvent)
    requires
        is_unrecognized(ev),
    ensures
        next_state(s, g, ev) == s,
        emission(s, g, ev) is None,
        !(reaction(s, g, verbose, ev) is Emitted),
        reaction(s, g, verbose, ev) is Quiet <==> !verbose,
{
}

/// The same event fed twice emits the same thing both times: no event is
/// dropped as a duplicate.
pub proof fn lemma_repeat_emits_again(s: TouchState, g: Geometry, ev: RawEvent)
    ensures
        next_state(next_state(s, g, ev), g, ev) == next_state(s, g, ev),
        emission(next_state(s, g, ev), g, ev) == emission(s, g, ev),
        emitted(s, g, seq![ev, ev]) == emitted(s, g, seq![ev]) + emitted(s, g, seq![ev]),
{
    let s1 = next_state(s, g, ev);
    let s2 = next_state(s1, g, ev);
    assert(seq![ev, ev].drop_first() =~= seq![ev]);
    assert(seq![ev].drop_first() =~= Seq::<RawEvent>::empty());
    assert(emitted(s2, g, Seq::<RawEvent>::empty()) == Seq::<MultitouchEvent>::empty());
    assert(emitted(s1, g, Seq::<RawEvent>::empty()) == Seq::<MultitouchEvent>::empty());
    let once = emitted(s, g, seq![ev]);
    assert(emitted(s1, g, seq![ev]) =~= once);
    if let Some(e) = emission(s, g, ev) {
        assert(once =~= seq![e]);
        assert(emitted(s, g, seq![ev, ev]) =~= seq![e] + once);
    } else {
        assert(once =~= Seq::<MultitouchEvent>::empty());
        assert(emitted(s, g, seq![ev, ev]) =~= once);
    }
    assert(emitted(s, g, seq![ev, ev]) =~= once + once);
}

} // verus!
