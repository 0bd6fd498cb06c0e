use rust_snake::theme::Theme;

#[test]
fn from_name_classic() {
    assert!(Theme::from_name("classic").is_some());
}

#[test]
fn from_name_neon() {
    assert!(Theme::from_name("neon").is_some());
}

#[test]
fn from_name_monochrome() {
    assert!(Theme::from_name("monochrome").is_some());
}

#[test]
fn from_name_invalid() {
    assert!(Theme::from_name("rainbow").is_none());
}
