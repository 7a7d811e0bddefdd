use enchanted_view::color_name::color_to_name;

#[test]
fn known_colors_have_names() {
    assert_eq!(color_to_name((0, 72, 186)), Some("Absolute zero"));
    assert_eq!(color_to_name((0, 255, 255)), Some("Aqua"));
    assert_eq!(color_to_name((248, 131, 121)), Some("Congo pink"));
}

#[test]
fn unknown_color_has_no_name() {
    assert_eq!(color_to_name((1, 2, 3)), None);
}
