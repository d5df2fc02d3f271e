use ferrflow::monorepo::run::summary::{collect_outputs, step_summary, untouched_hint, PlannedTag};

fn plain(hint: Option<String>) -> Option<String> {
    hint.map(|h| String::from_utf8(strip_ansi(h.as_bytes())).unwrap())
}

fn strip_ansi(bytes: &[u8]) -> Vec<u8> {
    let mut out = Vec::with_capacity(bytes.len());
    let mut in_escape = false;
    for &b in bytes {
        match (in_escape, b) {
            (false, 0x1b) => in_escape = true,
            (true, b'm') => in_escape = false,
            (true, _) => {}
            (false, _) => out.push(b),
        }
    }
    out
}

#[test]
fn nothing_is_said_when_every_package_was_considered() {
    assert!(untouched_hint(0, false).is_none());
}

#[test]
fn nothing_is_said_when_the_setting_already_widens_the_comparison() {
    assert!(
        untouched_hint(3, true).is_none(),
        "with recoverMissedReleases on, a skipped package really has nothing to release"
    );
}

#[test]
fn the_hint_names_the_setting_that_explains_the_short_plan() {
    let hint = plain(untouched_hint(3, false)).expect("three skipped packages want a hint");
    assert!(hint.contains("3 packages"), "{hint}");
    assert!(
        hint.contains("recoverMissedReleases"),
        "the point of the line is naming the setting: {hint}"
    );
}

#[test]
fn a_single_skipped_package_is_not_called_packages() {
    let hint = plain(untouched_hint(1, false)).unwrap();
    assert!(hint.contains("1 package not touched"), "{hint}");
}

#[test]
fn the_hint_reads_in_full() {
    let hint = plain(untouched_hint(12, false)).unwrap();
    assert_eq!(
        hint,
        "○ 12 packages not touched by the last commit. Set recoverMissedReleases to compare against the last tag instead."
    );
    let raw = untouched_hint(2, false).unwrap();
    assert!(raw == plain(Some(raw.clone())).unwrap() || raw.starts_with("\u{1b}[2m○\u{1b}[0m"));
}

fn lines(v: &[&str]) -> Vec<String> {
    v.iter().map(|s| s.to_string()).collect()
}

#[test]
fn outputs_are_separated_by_blank_lines() {
    let pkgs = vec![
        ("a".to_string(), lines(&["a1", "a2"])),
        ("b".to_string(), lines(&["b1"])),
    ];
    assert_eq!(
        collect_outputs(&pkgs, &lines(&["shared"])),
        lines(&["a1", "a2", "", "b1", "", "shared"])
    );
    assert_eq!(collect_outputs(&pkgs, &[]), lines(&["a1", "a2", "", "b1"]));
    assert_eq!(collect_outputs(&[], &lines(&["s"])), lines(&["", "s"]));
    assert!(collect_outputs(&[], &[]).is_empty());
}

fn tag(name: &str, body: &str) -> PlannedTag {
    PlannedTag {
        tag: name.to_string(),
        message: String::new(),
        body: body.to_string(),
        package: String::new(),
        version: String::new(),
        commit_count: 1,
        is_prerelease: false,
    }
}

#[test]
fn step_summary_lists_each_tag_with_its_notes() {
    assert_eq!(step_summary(&[]), "## Released\n\n");
    assert_eq!(
        step_summary(&[tag("api@v1.0.0", "- fix"), tag("web@v2.0.0", "- feat")]),
        "## Released\n\n### api@v1.0.0\n\n- fix\n### web@v2.0.0\n\n- feat\n"
    );
}

