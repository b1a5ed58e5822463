use vertex_sources::nvidia_smi::LinkWidth;

fn width(s: &str) -> i32 {
    LinkWidth { current_link_width: s.to_string() }.get_link_width()
}

#[test]
fn link_width_before_the_x() {
    assert_eq!(width("16x"), 16);
    assert_eq!(width("1x"), 1);
    assert_eq!(width("-4x"), -4);
}

#[test]
fn link_width_defaults_to_zero() {
    assert_eq!(width("16"), 0);
    assert_eq!(width("x"), 0);
    assert_eq!(width("N/Ax"), 0);
    assert_eq!(width(""), 0);
    assert_eq!(width("99999999999x"), 0);
}
