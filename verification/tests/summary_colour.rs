use ferrflow::monorepo::run::summary::untouched_hint;

#[test]
fn the_marker_is_dimmed_when_colour_is_on() {
    colored::control::set_override(true);
    let coloured = untouched_hint(2, false).unwrap();
    colored::control::set_override(false);
    let plain = untouched_hint(2, false).unwrap();
    colored::control::unset_override();
    assert!(coloured.starts_with("\u{1b}[2m○\u{1b}[0m 2 packages"), "{coloured:?}");
    assert!(plain.starts_with("○ 2 packages"), "{plain:?}");
}
