use crate::color::{
    hsv_sat_spec, hsv_val_spec, hue_spec, hue_weight, max3, min3, rgb_spec, Color,
};
use vstd::prelude::*;

verus! {

/// A color built from RGB within `0..=255` reads back exactly that RGB.
pub proof fn lemma_rgb_read_back(c: Color, r: int, g: int, b: int)
    requires
        0 <= r <= 255,
        0 <= g <= 255,
        0 <= b <= 255,
        c.made_from_rgb(r, g, b),
    ensures
        c.r == r,
        c.g == g,
        c.b == b,
{
}

/// Going from HSV to RGB and back loses at most one unit of value: the value
/// read back is `v` or `v - 1`.
pub proof fn lemma_hsv_round_trip_value(c: Color, h: int, s: int, v: int)
    requires
        0 <= h < 360,
        0 <= s <= 100,
        0 <= v <= 100,
        c.made_from_hsv(h, s, v),
    ensures
        v - 1 <= hsv_val_spec(c.r as int, c.g as int, c.b as int) <= v,
{
    lemma_rgb_spec_top(h, s, v);
}

/// At full value, going from HSV to RGB and back keeps the saturation exactly.
pub proof fn lemma_hsv_round_trip_saturation_at_full_value(c: Color, h: int, s: int)
    requires
        0 <= h < 360,
        0 <= s <= 100,
        c.made_from_hsv(h, s, 100),
    ensures
        hsv_sat_spec(c.r as int, c.g as int, c.b as int) == s,
{
    lemma_rgb_spec_top(h, s, 100);
}

/// At full saturation and value, going from HSV to RGB and back gives the
/// hue `h` or `h - 1`.
pub proof fn lemma_hsv_round_trip_hue_of_pure_colors(c: Color, h: int)
    requires
        0 <= h < 360,
        c.made_from_hsv(h, 100, 100),
    ensures
        h - 1 <= hue_spec(c.r as int, c.g as int, c.b as int) <= h,
{
    let w = hue_weight(h);
    let mid = 255 * w / 60;
    lemma_pure_hue_rgb(h);
    if h < 60 {
        lemma_hue_rising(h, mid, 0);
    } else if h < 120 {
        lemma_hue_falling(h, mid, 120);
    } else if h < 180 {
        lemma_hue_rising(h, mid, 120);
    } else if h < 240 {
        lemma_hue_falling(h, mid, 240);
    } else if h < 300 {
        lemma_hue_rising(h, mid, 240);
    } else {
        lemma_hue_falling(h, mid, 360);
    }
}

/// RGB of a hue at full saturation and value: one channel at 255, one at 0
/// and the third at `255 * hue_weight(h) / 60`.
proof fn lemma_pure_hue_rgb(h: int)
    requires
        0 <= h < 360,
    ensures
        ({
            let mid = 255 * hue_weight(h) / 60;
            let (r, g, b) = rgb_spec(h, 100, 100);
            &&& 0 <= hue_weight(h) <= 60
            &&& h < 60 ==> r == 255 && g == mid && b == 0 && hue_weight(h) == h
            &&& 60 <= h < 120 ==> r == mid && g == 255 && b == 0 && hue_weight(h) == 120 - h
            &&& 120 <= h < 180 ==> r == 0 && g == 255 && b == mid && hue_weight(h) == h - 120
            &&& 180 <= h < 240 ==> r == 0 && g == mid && b == 255 && hue_weight(h) == 240 - h
            &&& 240 <= h < 300 ==> r == mid && g == 0 && b == 255 && hue_weight(h) == h - 240
            &&& 300 <= h ==> r == 255 && g == 0 && b == mid && hue_weight(h) == 360 - h
        }),
{
    let w = hue_weight(h);
    assert(255 * (0 + 100 * 100 * w) / 600000 == 255 * w / 60) by (nonlinear_arith)
        requires
            0 <= w <= 60,
    ;
}

/// In a sector where the hue grows with the middle channel, truncation costs
/// at most one degree.
proof fn lemma_hue_rising(h: int, mid: int, start: int)
    requires
        start == 0 || start == 120 || start == 240,
        start <= h < start + 60,
        mid == 255 * (h - start) / 60,
    ensures
        start == 0 ==> h - 1 <= hue_spec(255, mid, 0) <= h,
        start == 120 ==> h - 1 <= hue_spec(0, 255, mid) <= h,
        start == 240 ==> h - 1 <= hue_spec(mid, 0, 255) <= h,
{
    assert(0 <= mid < 255);
    let q = 60 * mid / 255;
    assert(h - start - 1 <= q <= h - start);
    assert((60 * mid + 255 * (start + 360)) / 255 == q + start + 360);
    assert((60 * mid + 255 * start) / 255 == q + start);
    if start == 0 {
        assert((q + 360) % 360 == q);
    }
}

/// In a sector where the hue falls as the middle channel grows, truncation
/// of the middle channel is undone by that of the hue.
proof fn lemma_hue_falling(h: int, mid: int, end: int)
    requires
        end == 120 || end == 240 || end == 360,
        end - 60 <= h < end,
        mid == 255 * (end - h) / 60,
    ensures
        end == 120 ==> hue_spec(mid, 255, 0) == h,
        end == 240 ==> hue_spec(0, mid, 255) == h,
        end == 360 ==> hue_spec(255, 0, mid) == h,
{
    assert(0 < mid <= 255);
    assert((255 * end - 60 * mid) / 255 == h);
    if end == 120 && mid == 255 {
        assert(h == 60);
        assert((60 * (255 - 0) + 360 * 255) / 255 == 420);
    }
    if end == 360 {
        assert((60 * (0 - mid) + 360 * 255) / 255 == (255 * end - 60 * mid) / 255);
        assert(h % 360 == h);
    }
}

/// The largest and smallest channels of `rgb_spec`.
proof fn lemma_rgb_spec_top(h: int, s: int, v: int)
    requires
        0 <= h < 360,
        0 <= s <= 100,
        0 <= v <= 100,
    ensures
        ({
            let (r, g, b) = rgb_spec(h, s, v);
            &&& max3(r, g, b) == 255 * v / 100
            &&& min3(r, g, b) == 255 * (60 * v * (100 - s)) / 600000
        }),
{
    let w = hue_weight(h);
    assert(0 <= w <= 60);
    let base = 60 * v * (100 - s);
    assert(0 <= base && 0 <= s * v * w <= 60 * (s * v) && base + 60 * (s * v) == 6000 * v)
        by (nonlinear_arith)
        requires
            0 <= s <= 100,
            0 <= v <= 100,
            0 <= w <= 60,
            base == 60 * v * (100 - s),
    ;
}

} // verus!
