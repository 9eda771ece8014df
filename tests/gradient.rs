use waycolor::gradient::{PLANE_SHADER, VERTEX_SHADER};
use waycolor::{get_shader_sources, GradientType};

#[test]
fn plane_sources() {
    let (vertex, fragment) = get_shader_sources(&GradientType::Gradient, false);
    assert_eq!(vertex, format!("#version 330\n{}", VERTEX_SHADER));
    assert_eq!(fragment, format!("#version 330\n{}", PLANE_SHADER));
    assert!(fragment.contains("mix(white, hue, tex_coord.x)"));
}

#[test]
fn web_sources_use_es_version() {
    let (vertex, fragment) = get_shader_sources(&GradientType::Slider(String::from("r")), true);
    assert!(vertex.starts_with("#version 300 es\n"));
    assert!(fragment.starts_with("#version 300 es\n"));
}

#[test]
fn slider_sources() {
    let (_, red) = get_shader_sources(&GradientType::Slider(String::from("r")), false);
    assert!(red.contains("vec4 hsv2rgb("));
    assert!(red.contains("vec4 rgb2hsv("));
    assert!(red.ends_with(
        "void main() { out_color = vec4(tex_coord.x, color.g, color.b, 1.0); } "
    ));
    let (_, hue) = get_shader_sources(&GradientType::Slider(String::from("h")), false);
    assert!(hue.contains("out_color = hsv2rgb(tex_coord.x, 1.0, 1.0, 1.0);"));
    let (_, value) = get_shader_sources(&GradientType::Slider(String::from("v")), false);
    assert!(value.contains("hsv2rgb(hsv.r, hsv.g, tex_coord.x, hsv.a)"));
    let (_, none) = get_shader_sources(&GradientType::Slider(String::from("x")), false);
    assert!(!none.contains("void main()"));
}

#[test]
fn gradient_type_equality() {
    assert!(GradientType::Gradient == GradientType::Gradient);
    assert!(GradientType::Slider(String::from("r")) == GradientType::Slider(String::from("r")));
    assert!(GradientType::Slider(String::from("r")) != GradientType::Slider(String::from("g")));
    assert!(GradientType::Gradient != GradientType::Slider(String::from("r")));
}
