use crate::color::{clamp_spec, clamp_u16, Channel, Color};
use crate::gradient::GradientType;
use vstd::prelude::*;

verus! {

/// Whether a gradient surface is being dragged.
#[derive(Debug, Clone, Copy, PartialEq, Eq, Structural)]
pub enum DragState {
    Idle,
    Dragging,
}

impl DragState {
    /// A drag starts when the button goes down with the pointer on the
    /// surface, and lasts while the button stays down, wherever the pointer is.
    pub open spec fn next(self, hovered: bool, pressed: bool) -> DragState {
        match self {
            DragState::Idle => if hovered && pressed {
                DragState::Dragging
            } else {
                DragState::Idle
            },
            DragState::Dragging => if pressed {
                DragState::Dragging
            } else {
                DragState::Idle
            },
        }
    }

    /// The state after one frame in which the pointer was or was not over the
    /// surface (`hovered`) and the button was or was not held on it (`pressed`).
    pub fn step(self, hovered: bool, pressed: bool) -> (n: DragState)
        ensures
            n == self.next(hovered, pressed),
    {
        match self {
            DragState::Idle => if hovered && pressed {
                DragState::Dragging
            } else {
                DragState::Idle
            },
            DragState::Dragging => if pressed {
                DragState::Dragging
            } else {
                DragState::Idle
            },
        }
    }
}

/// `x` clamped into `[0, w]`.
fn clamp_offset(x: i32, w: u32) -> (c: u64)
    ensures
        c == clamp_spec(x as int, 0, w as int),
{
    if x < 0 {
        0
    } else if x as u64 > w as u64 {
        w as u64
    } else {
        x as u64
    }
}

/// `max * x / w` truncated, for `x` clamped into `[0, w]`.
pub open spec fn scaled_spec(x: int, w: int, max: int) -> int {
    max * clamp_spec(x, 0, w) / w
}

fn scaled(x: i32, w: u32, max: u16) -> (r: u16)
    requires
        w > 0,
    ensures
        r == scaled_spec(x as int, w as int, max as int),
        r <= max,
{
    let c = clamp_offset(x, w);
    let (w, m) = (w as u64, max as u64);
    assert(m * c <= m * w && m * c <= 65535 * 4294967295) by (nonlinear_arith)
        requires
            c <= w,
            m <= 65535,
            w <= 4294967295,
    ;
    assert((m * c) as int / (w as int) <= m) by (nonlinear_arith)
        requires
            m * c <= m * w,
            w > 0,
    ;
    (m * c / w) as u16
}

/// `max * (w - x) / w` truncated, for `x` clamped into `[0, w]`: the share of
/// `max` that the distance from `x` to the far end stands for.
pub open spec fn scaled_from_end_spec(x: int, w: int, max: int) -> int {
    max * (w - clamp_spec(x, 0, w)) / w
}

fn scaled_from_end(x: i32, w: u32, max: u16) -> (r: u16)
    requires
        w > 0,
    ensures
        r == scaled_from_end_spec(x as int, w as int, max as int),
        r <= max,
{
    let c = (w as u64) - clamp_offset(x, w);
    let (w, m) = (w as u64, max as u64);
    assert(m * c <= m * w && m * c <= 65535 * 4294967295) by (nonlinear_arith)
        requires
            c <= w,
            m <= 65535,
            w <= 4294967295,
    ;
    assert((m * c) as int / (w as int) <= m) by (nonlinear_arith)
        requires
            m * c <= m * w,
            w > 0,
    ;
    (m * c / w) as u16
}

/// The color picked at offset `(x, y)` from the top-left corner of the
/// saturation/value plane of size `w` by `h`: saturation grows from left to
/// right, value from bottom to top, and the hue is kept. The offset is
/// clamped into the plane.
pub fn plane_pick(color: &Color, x: i32, y: i32, w: u32, h: u32) -> (c: Color)
    requires
        w > 0,
        h > 0,
    ensures
        c.made_from_hsv(
            color.h as int,
            scaled_spec(x as int, w as int, 100),
            scaled_from_end_spec(y as int, h as int, 100),
        ),
        c.wf(),
{
    let s = scaled(x, w, 100);
    let v = scaled_from_end(y, h, 100);
    Color::from_hsv(color.h, s, v)
}

/// The color picked at offset `x` from the left end of a slider of width
/// `w` along channel `c`: the channel is set to its share `x / w` of its
/// largest value. The offset is clamped into the slider.
pub fn slider_pick(color: &Color, c: Channel, x: i32, w: u32) -> (n: Color)
    requires
        w > 0,
    ensures
        n.is_with_channel(color, c, scaled_spec(x as int, w as int, c.max_spec())),
        n.wf(),
{
    let value = scaled(x, w, c.max_value());
    color.with_channel(c, value)
}

/// The color that a pointer at offset `(x, y)` in a surface of size `w` by
/// `h` picks on gradient `gtype`. A slider whose name is no channel gives red.
pub fn pick(color: &Color, gtype: &GradientType, x: i32, y: i32, w: u32, h: u32) -> (n: Color)
    requires
        w > 0,
        h > 0,
    ensures
        n.wf(),
        match *gtype {
            GradientType::Gradient => n.made_from_hsv(
                color.h as int,
                scaled_spec(x as int, w as int, 100),
                scaled_from_end_spec(y as int, h as int, 100),
            ),
            GradientType::Slider(name) => match Channel::named(name@) {
                Some(c) => n.is_with_channel(color, c, scaled_spec(x as int, w as int, c.max_spec())),
                None => n.made_from_rgb(255, 0, 0),
            },
        },
{
    match gtype {
        GradientType::Gradient => plane_pick(color, x, y, w, h),
        GradientType::Slider(name) => match Channel::from_name(name.as_str()) {
            Some(c) => slider_pick(color, c, x, w),
            None => Color::from_rgb(255, 0, 0),
        },
    }
}

/// Channel value `value` moved one unit up or down and clamped to `[0, max]`.
pub open spec fn stepped_spec(value: int, up: bool, max: int) -> int {
    clamp_spec(if up { value + 1 } else { value - 1 }, 0, max)
}

/// The color after one scroll tick on a slider: the channel moves one unit
/// in the tick's direction, clamped to its range (no wrap-around). The plane
/// ignores scrolling (`None`); a slider whose name is no channel gives red.
pub fn scroll(color: &Color, gtype: &GradientType, up: bool) -> (n: Option<Color>)
    ensures
        match *gtype {
            GradientType::Gradient => n is None,
            GradientType::Slider(name) => n matches Some(n) && n.wf() && match Channel::named(name@) {
                Some(c) => n.is_with_channel(
                    color,
                    c,
                    stepped_spec(color.channel_spec(c) as int, up, c.max_spec()),
                ),
                None => n.made_from_rgb(255, 0, 0),
            },
        },
{
    match gtype {
        GradientType::Gradient => None,
        GradientType::Slider(name) => match Channel::from_name(name.as_str()) {
            Some(c) => {
                let value = color.channel_value(c);
                let max = c.max_value();
                let next = if up {
                    if value >= max {
                        max
                    } else {
                        value + 1
                    }
                } else if value == 0 {
                    0
                } else {
                    clamp_u16(value - 1, max)
                };
                Some(color.with_channel(c, next))
            },
            None => Some(Color::from_rgb(255, 0, 0)),
        },
    }
}

} // verus!
