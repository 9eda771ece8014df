use waycolor::{rgb_to_cymk, rgb_to_hsl, rgb_to_hsv, Channel, Color};

fn rgb(c: &Color) -> (u16, u16, u16) {
    (c.r, c.g, c.b)
}

fn hsv(c: &Color) -> (u16, u16, u16) {
    (c.h, c.s, c.v)
}

#[test]
fn rgb_read_back() {
    for r in (0..=255u16).step_by(5) {
        for g in (0..=255u16).step_by(17) {
            for b in [0u16, 1, 128, 254, 255] {
                let c = Color::from_rgb(r, g, b);
                assert_eq!(rgb(&c), (r, g, b));
            }
        }
    }
}

#[test]
fn from_rgb_clamps_channels() {
    let c = Color::from_rgb(300, 256, 1000);
    assert_eq!(rgb(&c), (255, 255, 255));
    assert_eq!(c.hex, "#FFFFFF");
}

#[test]
fn from_rgb_derives_hsv_and_hex() {
    let c = Color::from_rgb(22, 22, 33);
    assert_eq!(hsv(&c), (240, 33, 12));
    assert_eq!(c.hex, "#161621");
}

#[test]
fn hex_is_zero_padded() {
    assert_eq!(Color::from_rgb(0, 0, 0).hex, "#000000");
    assert_eq!(Color::from_rgb(1, 10, 15).hex, "#010A0F");
}

#[test]
fn hsv_round_trip() {
    for h in 0..360u16 {
        for s in 0..=100u16 {
            for v in 0..=100u16 {
                let c = Color::from_hsv(h, s, v);
                let (h2, s2, v2) = rgb_to_hsv(c.r, c.g, c.b);
                assert!(v2 == v || v2 + 1 == v);
                if v == 100 {
                    assert_eq!(s2, s);
                }
                if s == 100 && v == 100 {
                    assert!(h2 == h || h2 + 1 == h);
                }
            }
        }
    }
}

#[test]
fn hsv_round_trip_loses_saturation_near_black() {
    let c = Color::from_hsv(0, 30, 1);
    assert_eq!(rgb(&c), (2, 1, 1));
    assert_eq!(rgb_to_hsv(c.r, c.g, c.b), (0, 50, 0));
}

#[test]
fn from_hsv_derives_rgb() {
    let c = Color::from_hsv(200, 50, 50);
    assert_eq!(hsv(&c), (200, 50, 50));
    assert_eq!(rgb(&c), (63, 106, 127));
    assert_eq!(c.hex, "#3F6A7F");
}

#[test]
fn from_hsv_clamps_channels() {
    let c = Color::from_hsv(400, 150, 150);
    assert_eq!(hsv(&c), (360, 100, 100));
    assert_eq!(rgb(&c), (255, 0, 0));
}

#[test]
fn from_hex_reads_digits() {
    let c = Color::from_hex(String::from("#1E90FF")).unwrap();
    assert_eq!(rgb(&c), (30, 144, 255));
    assert_eq!(hsv(&c), (209, 88, 100));
    assert_eq!(c.hex, "#1E90FF");
}

#[test]
fn from_hex_accepts_lower_case() {
    let c = Color::from_hex(String::from("#1e90ff")).unwrap();
    assert_eq!(rgb(&c), (30, 144, 255));
    assert_eq!(c.hex, "#1E90FF");
}

#[test]
fn from_hex_rejects_malformed() {
    assert!(Color::from_hex(String::from("bad")).is_none());
    assert!(Color::from_hex(String::from("#12345")).is_none());
    assert!(Color::from_hex(String::from("#1234567")).is_none());
    assert!(Color::from_hex(String::from("1E90FFF")).is_none());
    assert!(Color::from_hex(String::from("#1E90FG")).is_none());
    assert!(Color::from_hex(String::from("#+12345")).is_none());
    assert!(Color::from_hex(String::new()).is_none());
}

#[test]
fn cmyk_of_black() {
    assert_eq!(rgb_to_cymk(0, 0, 0), (0, 0, 0, 100));
}

#[test]
fn cmyk_of_colors() {
    assert_eq!(rgb_to_cymk(255, 255, 255), (0, 0, 0, 0));
    // (c, y, m, k)
    assert_eq!(rgb_to_cymk(255, 0, 0), (0, 100, 100, 0));
    assert_eq!(rgb_to_cymk(0, 0, 128), (100, 0, 100, 49));
}

#[test]
fn hsv_of_primaries() {
    assert_eq!(rgb_to_hsv(255, 0, 0), (0, 100, 100));
    assert_eq!(rgb_to_hsv(0, 255, 0), (120, 100, 100));
    assert_eq!(rgb_to_hsv(0, 0, 255), (240, 100, 100));
}

#[test]
fn hsv_of_grays_has_no_hue() {
    assert_eq!(rgb_to_hsv(0, 0, 0), (0, 0, 0));
    assert_eq!(rgb_to_hsv(128, 128, 128), (0, 0, 50));
    assert_eq!(rgb_to_hsv(255, 255, 255), (0, 0, 100));
}

#[test]
fn hsv_hue_wraps_below_red() {
    assert_eq!(rgb_to_hsv(255, 0, 4), (359, 100, 100));
}

#[test]
fn hsl_of_colors() {
    assert_eq!(rgb_to_hsl(255, 0, 0), (0, 100, 50));
    assert_eq!(rgb_to_hsl(255, 255, 255), (0, 0, 100));
    assert_eq!(rgb_to_hsl(0, 0, 0), (0, 0, 0));
    assert_eq!(rgb_to_hsl(30, 144, 255), (209, 100, 55));
}

#[test]
fn inv_of_red() {
    let c = Color::from_hsv(0, 100, 100).inv();
    assert_eq!(hsv(&c), (180, 85, 75));
    assert_eq!(rgb(&c), (28, 191, 191));
}

#[test]
fn dim_turns_hue_and_value() {
    let c = Color::from_hsv(10, 50, 40).dim();
    assert_eq!(hsv(&c), (190, 30, 60));
    assert_eq!(rgb(&c), (107, 145, 153));
}

#[test]
fn value_by_name_reads_channels() {
    let c = Color::from_rgb(30, 144, 255);
    assert_eq!(c.value_by_name("r"), 30);
    assert_eq!(c.value_by_name("g"), 144);
    assert_eq!(c.value_by_name("b"), 255);
    assert_eq!(c.value_by_name("h"), 209);
    assert_eq!(c.value_by_name("s"), 88);
    assert_eq!(c.value_by_name("v"), 100);
    assert_eq!(c.value_by_name("x"), 0);
    assert_eq!(c.value_by_name("rg"), 0);
    assert_eq!(c.value_by_name(""), 0);
}

#[test]
fn channel_names() {
    assert_eq!(Channel::from_name("h"), Some(Channel::Hue));
    assert_eq!(Channel::from_name("H"), None);
    assert_eq!(Channel::Hue.max_value(), 360);
    assert_eq!(Channel::Blue.max_value(), 255);
    assert_eq!(Channel::Value.max_value(), 100);
}

#[test]
fn with_channel_rebuilds_color() {
    let c = Color::from_rgb(30, 144, 255);
    let r = c.with_channel(Channel::Red, 400);
    assert_eq!(rgb(&r), (255, 144, 255));
    let h = c.with_channel(Channel::Hue, 0);
    assert_eq!(hsv(&h), (0, 88, 100));
    assert_eq!(rgb(&h), (255, 30, 30));
}
