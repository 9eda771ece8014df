use vstd::prelude::*;
use vstd::string::*;

verus! {

/// A color held in two integer representations at once.
///
/// `r`, `g`, `b` lie in `0..=255`, `h` in `0..=360` and `s`, `v` in `0..=100`;
/// `hex` is the `#RRGGBB` form of the RGB channels. All conversions of this
/// module work on exact integer ratios and truncate toward zero.
#[derive(Debug, Clone)]
pub struct Color {
    pub r: u16,
    pub g: u16,
    pub b: u16,
    pub h: u16,
    pub s: u16,
    pub v: u16,
    pub hex: String,
}

/// `x` clamped into `[lo, hi]`.
pub open spec fn clamp_spec(x: int, lo: int, hi: int) -> int {
    if x < lo {
        lo
    } else if x > hi {
        hi
    } else {
        x
    }
}

/// `x` clamped into `[0, hi]`.
pub(crate) fn clamp_u16(x: u16, hi: u16) -> (r: u16)
    ensures
        r == clamp_spec(x as int, 0, hi as int),
{
    if x > hi {
        hi
    } else {
        x
    }
}

pub open spec fn max3(a: int, b: int, c: int) -> int {
    if a >= b && a >= c {
        a
    } else if b >= c {
        b
    } else {
        c
    }
}

pub open spec fn min3(a: int, b: int, c: int) -> int {
    if a <= b && a <= c {
        a
    } else if b <= c {
        b
    } else {
        c
    }
}

/// Hue in degrees of an RGB triple by the six-sector formula, truncated.
///
/// The sector is chosen by the largest channel, red first, then green. A
/// chroma of at most one ten-thousandth of full scale counts as none and gives
/// hue 0; for integer channels that means all three are equal. Every term is scaled by the chroma
/// `d`, so `60 * (g - b) / d` becomes `(60 * (g - b) + 360 * d) / d` and so on.
pub open spec fn hue_spec(r: int, g: int, b: int) -> int {
    let mx = max3(r, g, b);
    let d = mx - min3(r, g, b);
    if d == 0 {
        0
    } else if mx == r {
        ((60 * (g - b) + 360 * d) / d) % 360
    } else if mx == g {
        (60 * (b - r) + 120 * d) / d
    } else {
        (60 * (r - g) + 240 * d) / d
    }
}

/// HSV saturation, in percent, of an RGB triple.
pub open spec fn hsv_sat_spec(r: int, g: int, b: int) -> int {
    let mx = max3(r, g, b);
    if mx == 0 {
        0
    } else {
        100 * (mx - min3(r, g, b)) / mx
    }
}

/// HSV value, in percent, of an RGB triple.
pub open spec fn hsv_val_spec(r: int, g: int, b: int) -> int {
    100 * max3(r, g, b) / 255
}

/// `(h, s, v)` of an RGB triple.
pub open spec fn hsv_spec(r: int, g: int, b: int) -> (int, int, int) {
    (hue_spec(r, g, b), hsv_sat_spec(r, g, b), hsv_val_spec(r, g, b))
}

proof fn lemma_div_range(n: int, d: int, lo: int, hi: int)
    requires
        d > 0,
        lo * d <= n,
        n <= hi * d,
    ensures
        lo <= n / d <= hi,
{
    assert(lo <= n / d) by (nonlinear_arith)
        requires
            d > 0,
            lo * d <= n,
    ;
    assert(n / d <= hi) by (nonlinear_arith)
        requires
            d > 0,
            n <= hi * d,
    ;
}

/// The hue of any triple lies in `0..360`.
proof fn lemma_hue_range(r: int, g: int, b: int)
    requires
        0 <= r,
        0 <= g,
        0 <= b,
    ensures
        0 <= hue_spec(r, g, b) < 360,
{
    let mx = max3(r, g, b);
    let d = mx - min3(r, g, b);
    if d != 0 && mx != r {
        if mx == g {
            lemma_div_range(60 * (b - r) + 120 * d, d, 60, 180);
        } else {
            lemma_div_range(60 * (r - g) + 240 * d, d, 180, 300);
        }
    }
}

/// Saturation and value of a triple within `0..=255` lie in `0..=100`.
proof fn lemma_hsv_range(r: int, g: int, b: int)
    requires
        0 <= r <= 255,
        0 <= g <= 255,
        0 <= b <= 255,
    ensures
        0 <= hue_spec(r, g, b) < 360,
        0 <= hsv_sat_spec(r, g, b) <= 100,
        0 <= hsv_val_spec(r, g, b) <= 100,
{
    lemma_hue_range(r, g, b);
    let mx = max3(r, g, b);
    if mx != 0 {
        lemma_div_range(100 * (mx - min3(r, g, b)), mx, 0, 100);
    }
}

fn max3_u16(a: u16, b: u16, c: u16) -> (m: u16)
    ensures
        m == max3(a as int, b as int, c as int),
{
    if a >= b && a >= c {
        a
    } else if b >= c {
        b
    } else {
        c
    }
}

fn min3_u16(a: u16, b: u16, c: u16) -> (m: u16)
    ensures
        m == min3(a as int, b as int, c as int),
{
    if a <= b && a <= c {
        a
    } else if b <= c {
        b
    } else {
        c
    }
}

/// Hue of an RGB triple, computed as `hue_spec` states.
fn hue_of(r: u16, g: u16, b: u16) -> (h: u16)
    ensures
        h == hue_spec(r as int, g as int, b as int),
        h < 360,
{
    proof {
        lemma_hue_range(r as int, g as int, b as int);
    }
    let mx = max3_u16(r, g, b);
    let d = (mx - min3_u16(r, g, b)) as u64;
    let (r, g, b) = (r as u64, g as u64, b as u64);
    if d == 0 {
        0
    } else if mx as u64 == r {
        // `b - g <= d` because `g` is at least the smallest channel
        (((60 * g + 360 * d - 60 * b) / d) % 360) as u16
    } else if mx as u64 == g {
        ((60 * b + 120 * d - 60 * r) / d) as u16
    } else {
        ((60 * r + 240 * d - 60 * g) / d) as u16
    }
}

/// Converts RGB to `(h, s, v)`: hue in degrees, saturation and value in percent.
///
/// A triple without chroma (all channels equal) has hue 0 and, for black,
/// saturation 0.
pub fn rgb_to_hsv(r: u16, g: u16, b: u16) -> (res: (u16, u16, u16))
    ensures
        (res.0 as int, res.1 as int, res.2 as int) == hsv_spec(r as int, g as int, b as int),
{
    let h = hue_of(r, g, b);
    let mx = max3_u16(r, g, b) as u64;
    let d = mx - min3_u16(r, g, b) as u64;
    let s = if mx == 0 {
        0
    } else {
        proof {
            lemma_div_range(100 * d, mx as int, 0, 100);
        }
        100 * d / mx
    };
    let v = 100 * mx / 255;
    (h, s as u16, v as u16)
}

/// HSL saturation, in percent, of a triple within `0..=255`.
pub open spec fn hsl_sat_spec(r: int, g: int, b: int) -> int {
    let mx = max3(r, g, b);
    let mn = min3(r, g, b);
    let span = if mx + mn <= 255 {
        mx + mn
    } else {
        510 - mx - mn
    };
    if mx == mn {
        0
    } else {
        100 * (mx - mn) / span
    }
}

/// HSL lightness, in percent, of a triple within `0..=255`.
pub open spec fn hsl_light_spec(r: int, g: int, b: int) -> int {
    100 * (max3(r, g, b) + min3(r, g, b)) / 510
}

/// Converts RGB to `(h, s, l)`: hue in degrees, saturation and lightness in percent.
///
/// The hue is the HSV hue; a triple without chroma has saturation 0.
pub fn rgb_to_hsl(r: u16, g: u16, b: u16) -> (res: (u16, u16, u16))
    requires
        r <= 255,
        g <= 255,
        b <= 255,
    ensures
        res.0 == hue_spec(r as int, g as int, b as int),
        res.1 == hsl_sat_spec(r as int, g as int, b as int),
        res.2 == hsl_light_spec(r as int, g as int, b as int),
        res.0 < 360,
        res.1 <= 100,
        res.2 <= 100,
{
    let h = hue_of(r, g, b);
    let mx = max3_u16(r, g, b) as u64;
    let mn = min3_u16(r, g, b) as u64;
    let span = if mx + mn <= 255 {
        mx + mn
    } else {
        510 - mx - mn
    };
    let s = if mx == mn {
        0
    } else {
        proof {
            lemma_div_range(100 * (mx - mn), span as int, 0, 100);
        }
        100 * (mx - mn) / span
    };
    let l = 100 * (mx + mn) / 510;
    (h, s as u16, l as u16)
}

/// CMYK cyan, magenta or yellow, in percent, of channel `x` when the largest
/// channel is `mx`; 0 for black.
pub open spec fn cmy_spec(x: int, mx: int) -> int {
    if mx == 0 {
        0
    } else {
        100 * (mx - x) / mx
    }
}

/// CMYK key, in percent, of a triple within `0..=255`.
pub open spec fn key_spec(r: int, g: int, b: int) -> int {
    100 * (255 - max3(r, g, b)) / 255
}

fn cmy_of(x: u16, mx: u16) -> (c: u16)
    requires
        x <= mx,
    ensures
        c == cmy_spec(x as int, mx as int),
        c <= 100,
{
    if mx == 0 {
        0
    } else {
        let (x, mx) = (x as u64, mx as u64);
        proof {
            lemma_div_range(100 * (mx - x), mx as int, 0, 100);
        }
        (100 * (mx - x) / mx) as u16
    }
}

/// Converts RGB to CMYK, returned in the order `(c, y, m, k)`, each in percent.
///
/// Pure black gives `(0, 0, 0, 100)`: the division by `1 - k` is skipped there.
pub fn rgb_to_cymk(r: u16, g: u16, b: u16) -> (res: (u16, u16, u16, u16))
    requires
        r <= 255,
        g <= 255,
        b <= 255,
    ensures
        res.0 == cmy_spec(r as int, max3(r as int, g as int, b as int)),
        res.1 == cmy_spec(b as int, max3(r as int, g as int, b as int)),
        res.2 == cmy_spec(g as int, max3(r as int, g as int, b as int)),
        res.3 == key_spec(r as int, g as int, b as int),
{
    let mx = max3_u16(r, g, b);
    let c = cmy_of(r, mx);
    let m = cmy_of(g, mx);
    let y = cmy_of(b, mx);
    let k = (100 * (255 - mx as u64) / 255) as u16;
    (c, y, m, k)
}

/// `60 * x / c`, the weight of the middle channel against the largest one,
/// at hue `h` in degrees.
pub open spec fn hue_weight(h: int) -> int {
    let k = h % 120;
    if k >= 60 {
        120 - k
    } else {
        k
    }
}

/// RGB of an HSV triple by the chroma / intermediate / offset construction,
/// truncated.
///
/// With `c = s * v`, `x = c * hue_weight(h) / 60` and `m = v - c` (all
/// fractions of one), the channels are `255 * (c + m)`, `255 * (x + m)` and
/// `255 * m`, arranged by the 60-degree sector of `h`; every fraction is
/// written over the common denominator 600000.
pub open spec fn rgb_spec(h: int, s: int, v: int) -> (int, int, int) {
    let base = 60 * v * (100 - s);
    let low = 255 * base / 600000;
    let mid = 255 * (base + s * v * hue_weight(h)) / 600000;
    let top = 255 * (base + 60 * (s * v)) / 600000;
    if h < 60 {
        (top, mid, low)
    } else if h < 120 {
        (mid, top, low)
    } else if h < 180 {
        (low, top, mid)
    } else if h < 240 {
        (low, mid, top)
    } else if h < 300 {
        (mid, low, top)
    } else {
        (top, low, mid)
    }
}

/// Converts HSV (hue in degrees, saturation and value in percent) to RGB.
fn hsv_to_rbg(h: u16, s: u16, v: u16) -> (res: (u16, u16, u16))
    requires
        h <= 360,
        s <= 100,
        v <= 100,
    ensures
        (res.0 as int, res.1 as int, res.2 as int) == rgb_spec(h as int, s as int, v as int),
        res.0 <= 255,
        res.1 <= 255,
        res.2 <= 255,
{
    let (h, s, v) = (h as u64, s as u64, v as u64);
    let k = h % 120;
    let w = if k >= 60 {
        120 - k
    } else {
        k
    };
    assert(v * (100 - s) <= 10000 && s * v <= 10000 && s * v * w <= 60 * (s * v)
        && 60 * v * (100 - s) + 60 * (s * v) == 6000 * v) by (nonlinear_arith)
        requires
            s <= 100,
            v <= 100,
            w <= 60,
    ;
    let base = 60 * v * (100 - s);
    let sv = s * v;
    let low = 255 * base / 600000;
    let mid = 255 * (base + sv * w) / 600000;
    let top = 255 * (base + 60 * sv) / 600000;
    let (low, mid, top) = (low as u16, mid as u16, top as u16);
    if h < 60 {
        (top, mid, low)
    } else if h < 120 {
        (mid, top, low)
    } else if h < 180 {
        (low, top, mid)
    } else if h < 240 {
        (low, mid, top)
    } else if h < 300 {
        (mid, low, top)
    } else {
        (top, low, mid)
    }
}

/// Upper-case hexadecimal digit of `d` in `0..16`.
pub open spec fn hex_digit(d: int) -> char {
    seq!['0', '1', '2', '3', '4', '5', '6', '7', '8', '9', 'A', 'B', 'C', 'D', 'E', 'F'][d]
}

/// `#RRGGBB` in upper case for a triple within `0..=255`.
pub open spec fn hex_spec(r: int, g: int, b: int) -> Seq<char> {
    seq![
        '#',
        hex_digit(r / 16),
        hex_digit(r % 16),
        hex_digit(g / 16),
        hex_digit(g % 16),
        hex_digit(b / 16),
        hex_digit(b % 16),
    ]
}

fn hex_digit_str(d: u16) -> (t: &'static str)
    requires
        d < 16,
    ensures
        t@ == seq![hex_digit(d as int)],
{
    let digits = "0123456789ABCDEF";
    proof {
        reveal_strlit("0123456789ABCDEF");
    }
    assert(digits.is_ascii());
    digits.substring_ascii(d as usize, d as usize + 1)
}

/// `#RRGGBB` form of an RGB triple.
fn get_hex(r: u16, g: u16, b: u16) -> (hex: String)
    requires
        r <= 255,
        g <= 255,
        b <= 255,
    ensures
        hex@ == hex_spec(r as int, g as int, b as int),
{
    let mut hex = String::from_str("#");
    proof {
        reveal_strlit("#");
    }
    hex.append(hex_digit_str(r / 16));
    hex.append(hex_digit_str(r % 16));
    hex.append(hex_digit_str(g / 16));
    hex.append(hex_digit_str(g % 16));
    hex.append(hex_digit_str(b / 16));
    hex.append(hex_digit_str(b % 16));
    assert(hex@ =~= hex_spec(r as int, g as int, b as int));
    hex
}

/// Value of a hexadecimal digit of either case.
pub open spec fn hex_value(c: char) -> Option<int> {
    if '0' as int <= c as int <= '9' as int {
        Some(c as int - '0' as int)
    } else if 'a' as int <= c as int <= 'f' as int {
        Some(c as int - 'a' as int + 10)
    } else if 'A' as int <= c as int <= 'F' as int {
        Some(c as int - 'A' as int + 10)
    } else {
        None
    }
}

/// Whether `s` is `#` followed by exactly six hexadecimal digits.
pub open spec fn is_hex_code(s: Seq<char>) -> bool {
    &&& s.len() == 7
    &&& s[0] == '#'
    &&& forall|i: int| 1 <= i < 7 ==> (#[trigger] hex_value(s[i])) is Some
}

/// The byte written by the two digits of `s` at `i` and `i + 1`.
pub open spec fn hex_byte(s: Seq<char>, i: int) -> int {
    16 * hex_value(s[i])->0 + hex_value(s[i + 1])->0
}

fn hex_value_of(c: char) -> (d: Option<u16>)
    ensures
        d matches Some(x) ==> hex_value(c) == Some(x as int) && x < 16,
        d is None <==> hex_value(c) is None,
{
    if '0' <= c && c <= '9' {
        Some((c as u32 - '0' as u32) as u16)
    } else if 'a' <= c && c <= 'f' {
        Some((c as u32 - 'a' as u32 + 10) as u16)
    } else if 'A' <= c && c <= 'F' {
        Some((c as u32 - 'A' as u32 + 10) as u16)
    } else {
        None
    }
}

/// The byte written by the digits at `i` and `i + 1` of `t`, if both are digits.
fn hex_byte_at(t: &str, i: usize) -> (r: Option<u16>)
    requires
        i + 1 < t@.len(),
        t@.len() == 7,
    ensures
        r is Some <==> (hex_value(t@[i as int]) is Some && hex_value(t@[i + 1]) is Some),
        r matches Some(x) ==> x == hex_byte(t@, i as int) && x <= 255,
{
    let hi = hex_value_of(t.get_char(i));
    let lo = hex_value_of(t.get_char(i + 1));
    match (hi, lo) {
        (Some(a), Some(b)) => Some(16 * a + b),
        _ => None,
    }
}

/// A channel of a [`Color`].
#[derive(Debug, Clone, Copy, PartialEq, Eq, Structural)]
pub enum Channel {
    Red,
    Green,
    Blue,
    Hue,
    Saturation,
    Value,
}

impl Channel {
    /// The channel that the one-letter name `r`, `g`, `b`, `h`, `s` or `v` stands for.
    pub open spec fn named(name: Seq<char>) -> Option<Channel> {
        if name == seq!['r'] {
            Some(Channel::Red)
        } else if name == seq!['g'] {
            Some(Channel::Green)
        } else if name == seq!['b'] {
            Some(Channel::Blue)
        } else if name == seq!['h'] {
            Some(Channel::Hue)
        } else if name == seq!['s'] {
            Some(Channel::Saturation)
        } else if name == seq!['v'] {
            Some(Channel::Value)
        } else {
            None
        }
    }

    /// The largest value of the channel: 255 for RGB, 360 for hue, 100 otherwise.
    pub open spec fn max_spec(self) -> int {
        match self {
            Channel::Red | Channel::Green | Channel::Blue => 255,
            Channel::Hue => 360,
            Channel::Saturation | Channel::Value => 100,
        }
    }

    pub fn from_name(name: &str) -> (c: Option<Channel>)
        ensures
            c == Self::named(name@),
    {
        if name.unicode_len() != 1 {
            return None;
        }
        let l = name.get_char(0);
        assert(name@ =~= seq![l]);
        if l == 'r' {
            Some(Channel::Red)
        } else if l == 'g' {
            Some(Channel::Green)
        } else if l == 'b' {
            Some(Channel::Blue)
        } else if l == 'h' {
            Some(Channel::Hue)
        } else if l == 's' {
            Some(Channel::Saturation)
        } else if l == 'v' {
            Some(Channel::Value)
        } else {
            assert forall|c: char| c != l implies seq![c] != name@ by {
                if seq![c] == name@ {
                    assert(seq![c][0] == name@[0]);
                }
            }
            None
        }
    }

    pub fn max_value(&self) -> (m: u16)
        ensures
            m == self.max_spec(),
    {
        match self {
            Channel::Red | Channel::Green | Channel::Blue => 255,
            Channel::Hue => 360,
            Channel::Saturation | Channel::Value => 100,
        }
    }
}

impl Color {
    /// Every channel lies in its range.
    pub open spec fn in_range(&self) -> bool {
        &&& self.r <= 255
        &&& self.g <= 255
        &&& self.b <= 255
        &&& self.h <= 360
        &&& self.s <= 100
        &&& self.v <= 100
    }

    /// This is the color that RGB `(r, g, b)`, each within `0..=255`, describes:
    /// HSV derived from RGB.
    pub open spec fn is_rgb_color(&self, r: int, g: int, b: int) -> bool {
        &&& self.r == r
        &&& self.g == g
        &&& self.b == b
        &&& self.h == hue_spec(r, g, b)
        &&& self.s == hsv_sat_spec(r, g, b)
        &&& self.v == hsv_val_spec(r, g, b)
        &&& self.hex@ == hex_spec(r, g, b)
    }

    /// This is the color that HSV `(h, s, v)`, each within its range, describes:
    /// RGB derived from HSV.
    pub open spec fn is_hsv_color(&self, h: int, s: int, v: int) -> bool {
        let (r, g, b) = rgb_spec(h, s, v);
        &&& self.h == h
        &&& self.s == s
        &&& self.v == v
        &&& self.r == r
        &&& self.g == g
        &&& self.b == b
        &&& self.hex@ == hex_spec(r, g, b)
    }

    /// This is what `from_rgb(r, g, b)` returns.
    pub open spec fn made_from_rgb(&self, r: int, g: int, b: int) -> bool {
        self.is_rgb_color(clamp_spec(r, 0, 255), clamp_spec(g, 0, 255), clamp_spec(b, 0, 255))
    }

    /// This is what `from_hsv(h, s, v)` returns.
    pub open spec fn made_from_hsv(&self, h: int, s: int, v: int) -> bool {
        self.is_hsv_color(clamp_spec(h, 0, 360), clamp_spec(s, 0, 100), clamp_spec(v, 0, 100))
    }

    /// The representations agree: channels in range, `hex` from RGB, and one
    /// of RGB and HSV derived from the other.
    pub open spec fn wf(&self) -> bool {
        &&& self.in_range()
        &&& self.hex@ == hex_spec(self.r as int, self.g as int, self.b as int)
        &&& {
            ||| self.is_rgb_color(self.r as int, self.g as int, self.b as int)
            ||| self.is_hsv_color(self.h as int, self.s as int, self.v as int)
        }
    }

    /// This is `base` with channel `c` set to `value`, rebuilt as `with_channel` does.
    pub open spec fn is_with_channel(&self, base: &Color, c: Channel, value: int) -> bool {
        match c {
            Channel::Red => self.made_from_rgb(value, base.g as int, base.b as int),
            Channel::Green => self.made_from_rgb(base.r as int, value, base.b as int),
            Channel::Blue => self.made_from_rgb(base.r as int, base.g as int, value),
            Channel::Hue => self.made_from_hsv(value, base.s as int, base.v as int),
            Channel::Saturation => self.made_from_hsv(base.h as int, value, base.v as int),
            Channel::Value => self.made_from_hsv(base.h as int, base.s as int, value),
        }
    }

    /// The value of channel `c`.
    pub open spec fn channel_spec(&self, c: Channel) -> u16 {
        match c {
            Channel::Red => self.r,
            Channel::Green => self.g,
            Channel::Blue => self.b,
            Channel::Hue => self.h,
            Channel::Saturation => self.s,
            Channel::Value => self.v,
        }
    }

    /// Builds a color from RGB, each channel clamped to `0..=255`.
    pub fn from_rgb(r: u16, g: u16, b: u16) -> (c: Self)
        ensures
            c.made_from_rgb(r as int, g as int, b as int),
            c.wf(),
    {
        let r = clamp_u16(r, 255);
        let g = clamp_u16(g, 255);
        let b = clamp_u16(b, 255);
        proof {
            lemma_hsv_range(r as int, g as int, b as int);
        }
        let (h, s, v) = rgb_to_hsv(r, g, b);
        let hex = get_hex(r, g, b);
        Color { r, g, b, h, s, v, hex }
    }

    /// Builds a color from HSV, hue clamped to `0..=360`, saturation and value
    /// to `0..=100`.
    pub fn from_hsv(h: u16, s: u16, v: u16) -> (c: Self)
        ensures
            c.made_from_hsv(h as int, s as int, v as int),
            c.wf(),
    {
        let h = clamp_u16(h, 360);
        let s = clamp_u16(s, 100);
        let v = clamp_u16(v, 100);
        let (r, g, b) = hsv_to_rbg(h, s, v);
        let hex = get_hex(r, g, b);
        Color { r, g, b, h, s, v, hex }
    }

    /// Reads `#RRGGBB`, digits of either case; anything else gives `None`.
    pub fn from_hex(hex: String) -> (c: Option<Self>)
        ensures
            c is Some <==> is_hex_code(hex@),
            c matches Some(c) ==> c.is_rgb_color(
                hex_byte(hex@, 1),
                hex_byte(hex@, 3),
                hex_byte(hex@, 5),
            ) && c.wf(),
    {
        let t = hex.as_str();
        if t.unicode_len() != 7 || t.get_char(0) != '#' {
            return None;
        }
        let r = hex_byte_at(t, 1);
        let g = hex_byte_at(t, 3);
        let b = hex_byte_at(t, 5);
        match (r, g, b) {
            (Some(r), Some(g), Some(b)) => Some(Color::from_rgb(r, g, b)),
            _ => {
                assert(!is_hex_code(hex@)) by {
                    if is_hex_code(hex@) {
                        assert(hex_value(hex@[1]) is Some && hex_value(hex@[2]) is Some);
                        assert(hex_value(hex@[3]) is Some && hex_value(hex@[4]) is Some);
                        assert(hex_value(hex@[5]) is Some && hex_value(hex@[6]) is Some);
                    }
                }
                None
            },
        }
    }

    /// The opposite hue at saturation 30 and the opposite value.
    pub fn dim(&self) -> (c: Self)
        requires
            self.in_range(),
        ensures
            c.made_from_hsv((self.h + 180) % 360, 30, 100 - self.v),
            c.wf(),
    {
        let h = (self.h + 180) % 360;
        let s: u16 = 30;
        let v = 100 - self.v;
        Color::from_hsv(h, s, v)
    }

    /// The opposite hue at saturation 85 and value 75: a color that stands out
    /// against this one.
    pub fn inv(&self) -> (c: Self)
        requires
            self.in_range(),
        ensures
            c.made_from_hsv((self.h + 180) % 360, 85, 75),
            c.wf(),
    {
        let h = (self.h + 180) % 360;
        let s: u16 = 85;
        let v: u16 = 75;
        Color::from_hsv(h, s, v)
    }

    /// The value of channel `c`.
    pub fn channel_value(&self, c: Channel) -> (x: u16)
        ensures
            x == self.channel_spec(c),
    {
        match c {
            Channel::Red => self.r,
            Channel::Green => self.g,
            Channel::Blue => self.b,
            Channel::Hue => self.h,
            Channel::Saturation => self.s,
            Channel::Value => self.v,
        }
    }

    /// The value of the channel named `r`, `g`, `b`, `h`, `s` or `v`; 0 for any
    /// other name.
    pub fn value_by_name(&self, name: &str) -> (x: u16)
        ensures
            x == match Channel::named(name@) {
                Some(c) => self.channel_spec(c),
                None => 0,
            },
    {
        match Channel::from_name(name) {
            Some(c) => self.channel_value(c),
            None => 0,
        }
    }

    /// This color with channel `c` set to `value` (clamped to the channel's
    /// range), rebuilt from RGB for an RGB channel and from HSV otherwise.
    pub fn with_channel(&self, c: Channel, value: u16) -> (n: Self)
        ensures
            n.wf(),
            n.is_with_channel(self, c, value as int),
    {
        match c {
            Channel::Red => Color::from_rgb(value, self.g, self.b),
            Channel::Green => Color::from_rgb(self.r, value, self.b),
            Channel::Blue => Color::from_rgb(self.r, self.g, value),
            Channel::Hue => Color::from_hsv(value, self.s, self.v),
            Channel::Saturation => Color::from_hsv(self.h, value, self.v),
            Channel::Value => Color::from_hsv(self.h, self.s, value),
        }
    }
}

} // verus!
