use crate::color::Channel;
use vstd::prelude::*;
use vstd::string::*;

verus! {

/// What a gradient surface shows: the saturation/value plane of a hue, or a
/// slider along the channel of the given name (`r`, `g`, `b`, `h`, `s`, `v`).
#[derive(Debug, Clone)]
pub enum GradientType {
    Gradient,
    Slider(String),
}

impl PartialEq for GradientType {
    fn eq(&self, other: &GradientType) -> (r: bool) {
        match (self, other) {
            (GradientType::Gradient, GradientType::Gradient) => true,
            (GradientType::Slider(a), GradientType::Slider(b)) => a.eq(b),
            _ => false,
        }
    }
}

impl vstd::std_specs::cmp::PartialEqSpecImpl for GradientType {
    open spec fn obeys_eq_spec() -> bool {
        true
    }

    open spec fn eq_spec(&self, other: &GradientType) -> bool {
        match (self, other) {
            (GradientType::Gradient, GradientType::Gradient) => true,
            (GradientType::Slider(a), GradientType::Slider(b)) => a@ == b@,
            _ => false,
        }
    }
}

/// Vertex stage shared by all gradients: two triangles over the whole
/// viewport, handing on the position in `0..1` as `tex_coord`.
pub const VERTEX_SHADER: &'static str = r#"
            const vec2 verts[6] = vec2[6](
                vec2(-1.0, 1.0),
                vec2(1.0, 1.0),
                vec2(1.0, -1.0),
                vec2(1.0, -1.0),
                vec2(-1.0, 1.0),
                vec2(-1.0, -1.0)
            );
            out vec2 tex_coord;
            void main() {
                gl_Position = vec4(verts[gl_VertexID], 0.0, 1.0);
                tex_coord = gl_Position.xy * 0.5 + 0.5;
            }
        "#;

/// GLSL HSV to RGB, every component in `0..1`.
pub const HSV_TO_RGB_GLSL: &'static str = r#"
            vec4 hsv2rgb(float h, float s, float v, float a) {
                float c = v * s;
                float x = c * (1.0 - abs(mod(h * 6.0, 2.0) - 1.0));
                float m = v - c;

                vec3 rgb;

                if (h < 1.0/6.0) {
                    rgb = vec3(c, x, 0.0);
                } else if (h < 2.0/6.0) {
                    rgb = vec3(x, c, 0.0);
                } else if (h < 3.0/6.0) {
                    rgb = vec3(0.0, c, x);
                } else if (h < 4.0/6.0) {
                    rgb = vec3(0.0, x, c);
                } else if (h < 5.0/6.0) {
                    rgb = vec3(x, 0.0, c);
                } else {
                    rgb = vec3(c, 0.0, x);
                }

                return vec4(rgb + vec3(m), a);
            }
        "#;

/// GLSL RGB to HSV, every component in `0..1`.
pub const RGB_TO_HSV_GLSL: &'static str = r#"
            vec4 rgb2hsv(float r, float g, float b, float a) {
                float cmax = max(r, max(g, b));
                float cmin = min(r, min(g, b));
                float delta = cmax - cmin;

                float h = 0.0;
                if (delta != 0.0) {
                    if (cmax == r) {
                        h = mod((g - b) / delta, 6.0) / 6.0;
                    } else if (cmax == g) {
                        h = ((b - r) / delta + 2.0) / 6.0;
                    } else if (cmax == b) {
                        h = ((r - g) / delta + 4.0) / 6.0;
                    }
                }
                float s = 0.0;
                if (cmax != 0.0) {
                    s = delta / cmax;
                }

                return vec4(h, s, cmax, a);
            }
        "#;

/// Fragment stage of the plane: white blended toward the hue color from
/// left to right, darkened toward black from top to bottom.
pub const PLANE_SHADER: &'static str = r#"
                uniform vec4 hue;
                in vec2 tex_coord;
                out vec4 out_color;
                void main() {
                    vec4 white = vec4(1.0, 1.0, 1.0, 1.0);
                    vec4 color = mix(white, hue, tex_coord.x);
                    out_color = color * tex_coord.y;
                }
            "#;

/// Inputs and output of every slider's fragment stage.
pub const SLIDER_DECLARATIONS: &'static str = r#"
                    uniform vec4 color;
                    in vec2 tex_coord;
                    out vec4 out_color;
                "#;

pub const RED_SLIDER: &'static str = "void main() { out_color = vec4(tex_coord.x, color.g, color.b, 1.0); } ";

pub const GREEN_SLIDER: &'static str = "void main() { out_color = vec4(color.r, tex_coord.x, color.b, 1.0); } ";

pub const BLUE_SLIDER: &'static str = "void main() { out_color = vec4(color.r, color.g, tex_coord.x, 1.0); } ";

/// The full hue circle at saturation and value 1, whatever the base color.
pub const HUE_SLIDER: &'static str = "void main() {
                            out_color = hsv2rgb(tex_coord.x, 1.0, 1.0, 1.0);
                        } ";

pub const SATURATION_SLIDER: &'static str = "void main() {
                            vec4 hsv = rgb2hsv(color.r, color.g, color.b, color.a);
                            out_color  = hsv2rgb(hsv.r, tex_coord.x, hsv.b, hsv.a);
                        } ";

pub const VALUE_SLIDER: &'static str = "void main() {
                            vec4 hsv = rgb2hsv(color.r, color.g, color.b, color.a);
                            out_color  = hsv2rgb(hsv.r, hsv.g, tex_coord.x, hsv.a);
                        } ";

pub const GLSL_VERSION: &'static str = "#version 330";

pub const GLSL_ES_VERSION: &'static str = "#version 300 es";

/// The version line for desktop GL, or for GL ES on the web.
pub open spec fn version_spec(web: bool) -> Seq<char> {
    if web {
        GLSL_ES_VERSION@
    } else {
        GLSL_VERSION@
    }
}

/// `main` of the slider along channel `c`; empty where no channel is named.
pub open spec fn slider_main_spec(c: Option<Channel>) -> Seq<char> {
    match c {
        Some(Channel::Red) => RED_SLIDER@,
        Some(Channel::Green) => GREEN_SLIDER@,
        Some(Channel::Blue) => BLUE_SLIDER@,
        Some(Channel::Hue) => HUE_SLIDER@,
        Some(Channel::Saturation) => SATURATION_SLIDER@,
        Some(Channel::Value) => VALUE_SLIDER@,
        None => Seq::empty(),
    }
}

/// Fragment stage of a gradient, without its version line.
pub open spec fn fragment_spec(gtype: GradientType) -> Seq<char> {
    match gtype {
        GradientType::Gradient => PLANE_SHADER@,
        GradientType::Slider(name) => HSV_TO_RGB_GLSL@ + seq!['\n'] + RGB_TO_HSV_GLSL@ + seq!['\n']
            + SLIDER_DECLARATIONS@ + seq!['\n'] + slider_main_spec(Channel::named(name@)),
    }
}

fn slider_main(name: &str) -> (m: &'static str)
    ensures
        m@ == slider_main_spec(Channel::named(name@)),
{
    match Channel::from_name(name) {
        Some(Channel::Red) => RED_SLIDER,
        Some(Channel::Green) => GREEN_SLIDER,
        Some(Channel::Blue) => BLUE_SLIDER,
        Some(Channel::Hue) => HUE_SLIDER,
        Some(Channel::Saturation) => SATURATION_SLIDER,
        Some(Channel::Value) => VALUE_SLIDER,
        None => {
            proof {
                reveal_strlit("");
            }
            ""
        },
    }
}

/// Vertex and fragment sources of the shader program that draws `gtype`,
/// each headed by the GLSL version line (GL ES where `web`).
pub fn get_shader_sources(gtype: &GradientType, web: bool) -> (res: (String, String))
    ensures
        res.0@ == version_spec(web) + seq!['\n'] + VERTEX_SHADER@,
        res.1@ == version_spec(web) + seq!['\n'] + fragment_spec(*gtype),
{
    let shader_version = if web {
        GLSL_ES_VERSION
    } else {
        GLSL_VERSION
    };
    proof {
        reveal_strlit("\n");
    }
    let mut vertex = String::from_str(shader_version);
    vertex.append("\n");
    vertex.append(VERTEX_SHADER);
    let mut fragment = String::from_str(shader_version);
    fragment.append("\n");
    match gtype {
        GradientType::Gradient => {
            fragment.append(PLANE_SHADER);
        },
        GradientType::Slider(name) => {
            fragment.append(HSV_TO_RGB_GLSL);
            fragment.append("\n");
            fragment.append(RGB_TO_HSV_GLSL);
            fragment.append("\n");
            fragment.append(SLIDER_DECLARATIONS);
            fragment.append("\n");
            fragment.append(slider_main(name.as_str()));
        },
    }
    assert(vertex@ =~= version_spec(web) + seq!['\n'] + VERTEX_SHADER@);
    assert(fragment@ =~= version_spec(web) + seq!['\n'] + fragment_spec(*gtype));
    (vertex, fragment)
}

} // verus!
