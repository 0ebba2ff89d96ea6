use noctig::colormap::{get_color_map, ColorMap};

const WHITE: [f32; 4] = [1.0, 1.0, 1.0, 1.0];

fn maps() -> Vec<ColorMap<[f32; 4]>> {
    vec![
        ColorMap { name: "batlow".to_string(), colors: vec![[0.0, 0.0, 0.0, 1.0], [0.5, 0.5, 0.5, 1.0], [1.0, 0.0, 0.0, 1.0]] },
        ColorMap { name: "oslo".to_string(), colors: vec![[0.0, 0.0, 1.0, 1.0]] },
        ColorMap { name: "batlow".to_string(), colors: vec![WHITE] },
    ]
}

#[test]
fn gradient_by_name() {
    let m = maps();
    assert_eq!(get_color_map(&m, "batlow", WHITE), m[0].colors);
    assert_eq!(get_color_map(&m, "oslo", WHITE), vec![[0.0, 0.0, 1.0, 1.0]]);
}

#[test]
fn reversed_gradient() {
    let m = maps();
    let mut expected = m[0].colors.clone();
    expected.reverse();
    assert_eq!(get_color_map(&m, "batlow_r", WHITE), expected);
}

#[test]
fn unknown_gradient_is_white() {
    let m = maps();
    assert_eq!(get_color_map(&m, "viridis", WHITE), vec![WHITE]);
    assert_eq!(get_color_map(&m, "_r", WHITE), vec![WHITE]);
    assert_eq!(get_color_map(&Vec::new(), "batlow", WHITE), vec![WHITE]);
}
