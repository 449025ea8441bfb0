use vstd::prelude::*;

verus! {

/// Width of the reMarkable multi-touch sensor, in sensor units.
pub const MTWIDTH: u16 = 767;

/// Height of the reMarkable multi-touch sensor, in sensor units.
pub const MTHEIGHT: u16 = 1023;

/// Width of the reMarkable display, in pixels.
pub const DISPLAYWIDTH: u16 = 1404;

/// Height of the reMarkable display, in pixels.
pub const DISPLAYHEIGHT: u16 = 1872;

/// The sizes of the touch sensor and of the display it is mapped onto.
#[derive(Clone, Copy, Debug, PartialEq, Eq, Structural)]
pub struct Geometry {
    pub sensor_width: u16,
    pub sensor_height: u16,
    pub display_width: u16,
    pub display_height: u16,
}

/// A sensor sample mirrored along its axis: `extent - value`, with the
/// value first brought into `[0, extent]`.
pub open spec fn flipped(extent: int, value: int) -> int {
    if value <= 0 {
        extent
    } else if value >= extent {
        0
    } else {
        extent - value
    }
}

/// A mirrored sensor coordinate scaled into display space, rounding down.
pub open spec fn scaled(coord: int, display: int, sensor: int) -> int {
    coord * display / sensor
}

impl Geometry {
    /// Both sensor sizes are positive, so the scale ratios are defined.
    pub open spec fn wf(self) -> bool {
        self.sensor_width > 0 && self.sensor_height > 0
    }

    pub open spec fn remarkable_spec() -> Geometry {
        Geometry {
            sensor_width: MTWIDTH,
            sensor_height: MTHEIGHT,
            display_width: DISPLAYWIDTH,
            display_height: DISPLAYHEIGHT,
        }
    }

    /// The geometry of the reMarkable tablet's touch layer and display.
    pub fn remarkable() -> (g: Geometry)
        ensures
            g.wf(),
            g == Geometry::remarkable_spec(),
    {
        Geometry {
            sensor_width: MTWIDTH,
            sensor_height: MTHEIGHT,
            display_width: DISPLAYWIDTH,
            display_height: DISPLAYHEIGHT,
        }
    }

    /// A geometry from its four sizes; `None` when a sensor size is zero.
    pub fn new(sensor_width: u16, sensor_height: u16, display_width: u16, display_height: u16) -> (r:
        Option<Geometry>)
        ensures
            r is Some <==> (sensor_width > 0 && sensor_height > 0),
            r matches Some(g) ==> g.wf() && g == (Geometry {
                sensor_width,
                sensor_height,
                display_width,
                display_height,
            }),
    {
        if sensor_width == 0 || sensor_height == 0 {
            None
        } else {
            Some(Geometry { sensor_width, sensor_height, display_width, display_height })
        }
    }
}

/// Mirrors a raw sample along an axis of the given extent.
pub fn flip(extent: u16, value: i32) -> (r: u16)
    ensures
        r == flipped(extent as int, value as int),
        r <= extent,
{
    if value <= 0 {
        extent
    } else if value >= extent as i32 {
        0
    } else {
        extent - value as u16
    }
}

/// Scales a sensor coordinate into display space: `coord * display / sensor`.
pub fn scale(coord: u16, display: u16, sensor: u16) -> (r: u16)
    requires
        sensor > 0,
        coord <= sensor,
    ensures
        r == scaled(coord as int, display as int, sensor as int),
        r <= display,
{
    proof {
        assert(coord as int * display as int <= 0xffff * 0xffff) by (nonlinear_arith)
            requires
                coord <= 0xffff,
                display <= 0xffff,
                coord >= 0,
                display >= 0,
        ;
        assert(coord as int * display as int <= sensor as int * display as int) by (nonlinear_arith)
            requires
                coord <= sensor,
        ;
        assert(coord as int * display as int / sensor as int <= display as int) by (nonlinear_arith)
            requires
                coord as int * display as int <= sensor as int * display as int,
                sensor > 0,
                coord >= 0,
                display >= 0,
        ;
    }
    let product: u32 = coord as u32 * display as u32;
    (product / sensor as u32) as u16
}

} // verus!
