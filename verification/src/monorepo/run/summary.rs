//! The run summary: the hint about packages left out of the plan, the
//! layout of per-package output, and the GitHub step summary.

use vstd::prelude::*;
use colored::Colorize;
use crate::text::{contains, decimal, digit_char, push_all, push_decimal, views};

verus! {

/// A tag the release run plans to create.
#[derive(Debug, Clone)]
pub struct PlannedTag {
    pub tag: String,
    pub message: String,
    pub body: String,
    pub package: String,
    pub version: String,
    pub commit_count: i32,
    pub is_prerelease: bool,
}

/// The ANSI sequence that ends a styled span.
pub open spec fn ansi_reset() -> Seq<char> {
    "\x1b[0m"@
}

/// Calls `colored`'s `dimmed` and renders the result. Whether colour is
/// applied depends on the terminal, the environment (`NO_COLOR`,
/// `CLICOLOR`, ...) and a process-wide override, which rendering reads
/// more than once; so the contract states every outcome: the text as it
/// is, the text wrapped in the dim style and a reset, or (when the override
/// changes during rendering) the text followed by a bare reset. (Text that
/// itself holds a reset sequence gets the style re-applied after it; that
/// case is left out.)
#[verifier::external_body]
fn dimmed(text: &str) -> (res: String)
    ensures
        !contains(text@, ansi_reset()) ==> (res@ == text@ || res@ == "\x1b[2m"@ + text@
            + ansi_reset() || res@ == text@ + ansi_reset()),
{
    text.dimmed().to_string()
}

/// The marker in front of the hint: a circle, dimmed when colour is on.
pub open spec fn hint_marker(m: Seq<char>) -> bool {
    m == "○"@ || m == "\x1b[2m"@ + "○"@ + ansi_reset() || m == "○"@ + ansi_reset()
}

/// The hint text after its marker.
pub open spec fn untouched_text(skipped: nat) -> Seq<char> {
    " "@ + decimal(skipped) + (if skipped == 1 {
        " package"@
    } else {
        " packages"@
    }) + " not touched by the last commit. Set recoverMissedReleases to compare against the last tag instead."@
}

/// The hint printed when packages were left out because the last commit
/// did not touch them: none when nothing was skipped or when
/// `recoverMissedReleases` already compares against the last tag.
pub fn untouched_hint(skipped: usize, recover_missed_releases: bool) -> (res: Option<String>)
    ensures
        (skipped == 0 || recover_missed_releases) <==> res is None,
        res matches Some(h) ==> exists|m: Seq<char>|
            hint_marker(m) && h@ == m + untouched_text(skipped as nat),
{
    if skipped == 0 || recover_missed_releases {
        return None;
    }
    proof {
        reveal_strlit("○");
        reveal_strlit("\x1b[0m");
        assert(!contains("○"@, ansi_reset()));
    }
    let mut out = dimmed("○");
    let ghost marker = out@;
    push_all(&mut out, " ");
    push_decimal(&mut out, skipped as u64);
    if skipped == 1 {
        push_all(&mut out, " package");
    } else {
        push_all(&mut out, " packages");
    }
    push_all(
        &mut out,
        " not touched by the last commit. Set recoverMissedReleases to compare against the last tag instead.",
    );
    assert(hint_marker(marker));
    assert(out@ =~= marker + untouched_text(skipped as nat));
    Some(out)
}

/// `s` without its ANSI escape sequences: an escape character starts one,
/// and it runs up to and including the next `m`.
pub open spec fn strip_escapes(s: Seq<char>, in_escape: bool) -> Seq<char>
    decreases s.len(),
{
    if s.len() == 0 {
        Seq::<char>::empty()
    } else if in_escape {
        strip_escapes(s.drop_first(), s[0] != 'm')
    } else if s[0] == '\x1b' {
        strip_escapes(s.drop_first(), true)
    } else {
        seq![s[0]] + strip_escapes(s.drop_first(), false)
    }
}

proof fn lemma_strip_plain(s: Seq<char>)
    requires
        forall|i: int| 0 <= i < s.len() ==> #[trigger] s[i] != '\x1b',
    ensures
        strip_escapes(s, false) == s,
    decreases s.len(),
{
    if s.len() > 0 {
        assert forall|i: int| 0 <= i < s.drop_first().len() implies #[trigger] s.drop_first()[i]
            != '\x1b' by {
            assert(s.drop_first()[i] == s[i + 1]);
        }
        lemma_strip_plain(s.drop_first());
        assert(seq![s[0]] + s.drop_first() =~= s);
    }
}

proof fn lemma_decimal_plain(n: nat)
    ensures
        forall|i: int| 0 <= i < decimal(n).len() ==> #[trigger] decimal(n)[i] != '\x1b',
    decreases n,
{
    if n >= 10 {
        lemma_decimal_plain(n / 10);
        assert((digit_char(n % 10) as u32) == n % 10 + 48);
        assert forall|i: int| 0 <= i < decimal(n).len() implies #[trigger] decimal(n)[i] != '\x1b' by {
            if i < decimal(n / 10).len() {
                assert(decimal(n)[i] == decimal(n / 10)[i]);
            }
        }
    } else {
        assert((digit_char(n) as u32) == n + 48);
        assert(decimal(n)[0] == digit_char(n));
    }
}

proof fn lemma_strip_reset(t: Seq<char>)
    requires
        strip_escapes(t, false) == t,
    ensures
        strip_escapes(ansi_reset() + t, false) == t,
{
    reveal_strlit("\x1b[0m");
    let s0 = ansi_reset() + t;
    assert(ansi_reset() =~= seq!['\x1b', '[', '0', 'm']);
    let s1 = seq!['[', '0', 'm'] + t;
    let s2 = seq!['0', 'm'] + t;
    let s3 = seq!['m'] + t;
    assert(s0[0] == '\x1b' && s0.drop_first() =~= s1);
    assert(s1[0] == '[' && s1.drop_first() =~= s2);
    assert(s2[0] == '0' && s2.drop_first() =~= s3);
    assert(s3[0] == 'm' && s3.drop_first() =~= t);
    assert(strip_escapes(s3, true) == strip_escapes(t, false));
    assert(strip_escapes(s2, true) == strip_escapes(s3, true));
    assert(strip_escapes(s1, true) == strip_escapes(s2, true));
    assert(strip_escapes(s0, false) == strip_escapes(s1, true));
}

/// Without its escape sequences, the hint is always the plain circle
/// followed by the text, whatever colouring was applied.
pub proof fn untouched_hint_reads_plain(m: Seq<char>, skipped: nat)
    requires
        hint_marker(m),
    ensures
        strip_escapes(m + untouched_text(skipped), false) == "○"@ + untouched_text(skipped),
{
    let t = untouched_text(skipped);
    reveal_strlit(" ");
    reveal_strlit(" package");
    reveal_strlit(" packages");
    reveal_strlit(
        " not touched by the last commit. Set recoverMissedReleases to compare against the last tag instead.",
    );
    reveal_strlit("○");
    reveal_strlit("\x1b[2m");
    reveal_strlit("\x1b[0m");
    lemma_decimal_plain(skipped);
    let d = decimal(skipped);
    let w = if skipped == 1 {
        " package"@
    } else {
        " packages"@
    };
    let tail =
        " not touched by the last commit. Set recoverMissedReleases to compare against the last tag instead."@;
    assert(forall|i: int| 0 <= i < w.len() ==> w[i] != '\x1b');
    assert(forall|i: int| 0 <= i < tail.len() ==> tail[i] != '\x1b');
    assert(t == " "@ + d + w + tail);
    assert forall|i: int| 0 <= i < t.len() implies #[trigger] t[i] != '\x1b' by {
        if i < 1 {
        } else if i < 1 + d.len() {
            assert(t[i] == d[i - 1]);
        } else if i < 1 + d.len() + w.len() {
            assert(t[i] == w[i - 1 - d.len()]);
        } else {
            assert(t[i] == tail[i - 1 - d.len() - w.len()]);
        }
    }
    lemma_strip_plain(t);
    let circle = "○"@;
    let reset = ansi_reset();
    let dim = "\x1b[2m"@;
    assert(circle =~= seq!['○']);
    assert(reset =~= seq!['\x1b', '[', '0', 'm']);
    assert(dim =~= seq!['\x1b', '[', '2', 'm']);
    if m == circle {
        assert((m + t).drop_first() =~= t);
        assert(strip_escapes(m + t, false) =~= circle + t);
    } else if m == circle + reset {
        let s1 = m + t;
        assert(s1.drop_first() =~= reset + t);
        lemma_strip_reset(t);
        assert(strip_escapes(s1, false) =~= circle + t);
    } else {
        let s1 = m + t;
        let r = circle + (reset + t);
        let a1 = seq!['[', '2', 'm'] + r;
        let a2 = seq!['2', 'm'] + r;
        let a3 = seq!['m'] + r;
        assert(s1 =~= seq!['\x1b'] + a1);
        assert(s1[0] == '\x1b' && s1.drop_first() =~= a1);
        assert(a1[0] == '[' && a1.drop_first() =~= a2);
        assert(a2[0] == '2' && a2.drop_first() =~= a3);
        assert(a3[0] == 'm' && a3.drop_first() =~= r);
        assert(r[0] == '○' && r.drop_first() =~= reset + t);
        lemma_strip_reset(t);
        assert(strip_escapes(r, false) =~= circle + t);
        assert(strip_escapes(a3, true) == strip_escapes(r, false));
        assert(strip_escapes(a2, true) == strip_escapes(a3, true));
        assert(strip_escapes(a1, true) == strip_escapes(a2, true));
        assert(strip_escapes(s1, false) == strip_escapes(a1, true));
        assert(strip_escapes(s1, false) =~= circle + t);
    }
}

/// The lines of each package, in order, with an empty line between two
/// packages.
pub open spec fn package_lines(pkgs: Seq<(String, Vec<String>)>) -> Seq<Seq<char>>
    decreases pkgs.len(),
{
    if pkgs.len() == 0 {
        Seq::<Seq<char>>::empty()
    } else if pkgs.len() == 1 {
        views(pkgs[0].1@)
    } else {
        package_lines(pkgs.drop_last()).push(Seq::<char>::empty()) + views(pkgs.last().1@)
    }
}

/// All output of a run: the package lines, then, when there are shared
/// lines, an empty line and the shared lines.
pub open spec fn run_lines(pkgs: Seq<(String, Vec<String>)>, shared: Seq<String>) -> Seq<
    Seq<char>,
> {
    package_lines(pkgs) + if shared.len() == 0 {
        Seq::<Seq<char>>::empty()
    } else {
        seq![Seq::<char>::empty()] + views(shared)
    }
}

fn append_lines(out: &mut Vec<String>, lines: &[String])
    ensures
        views(final(out)@) == views(old(out)@) + views(lines@),
{
    let ghost start = out@;
    let mut j: usize = 0;
    while j < lines.len()
        invariant
            j <= lines@.len(),
            views(out@) == views(start) + views(lines@.take(j as int)),
        decreases lines@.len() - j,
    {
        let ghost prev = out@;
        let line = lines[j].clone();
        out.push(line);
        assert(views(out@) =~= views(prev).push(lines@[j as int]@));
        assert(lines@.take(j + 1) =~= lines@.take(j as int).push(lines@[j as int]));
        assert(views(lines@.take(j + 1)) =~= views(lines@.take(j as int)).push(lines@[j as int]@));
        j = j + 1;
        assert(views(out@) =~= views(start) + views(lines@.take(j as int)));
    }
    assert(lines@.take(lines@.len() as int) =~= lines@);
}

/// Lays out the output of a run: each package's lines, separated by an
/// empty line, then an empty line and the shared lines when there are any.
pub fn collect_outputs(pkg_outputs: &[(String, Vec<String>)], shared_outputs: &[String]) -> (res:
    Vec<String>)
    ensures
        views(res@) == run_lines(pkg_outputs@, shared_outputs@),
{
    let mut out: Vec<String> = Vec::new();
    let mut i: usize = 0;
    while i < pkg_outputs.len()
        invariant
            i <= pkg_outputs@.len(),
            views(out@) == package_lines(pkg_outputs@.take(i as int)),
        decreases pkg_outputs@.len() - i,
    {
        let ghost before = out@;
        if i > 0 {
            out.push(String::new());
            assert(views(out@) =~= views(before).push(Seq::<char>::empty()));
        }
        append_lines(&mut out, pkg_outputs[i].1.as_slice());
        proof {
            let t = pkg_outputs@.take(i + 1);
            assert(t.drop_last() =~= pkg_outputs@.take(i as int));
            assert(t.last() == pkg_outputs@[i as int]);
            if i == 0 {
                assert(views(before) =~= Seq::<Seq<char>>::empty());
            }
        }
        i = i + 1;
        assert(views(out@) =~= package_lines(pkg_outputs@.take(i as int)));
    }
    assert(pkg_outputs@.take(pkg_outputs@.len() as int) =~= pkg_outputs@);
    let ghost pkgs_done = out@;
    if shared_outputs.len() > 0 {
        out.push(String::new());
        assert(views(out@) =~= views(pkgs_done).push(Seq::<char>::empty()));
        append_lines(&mut out, shared_outputs);
    }
    assert(views(out@) =~= run_lines(pkg_outputs@, shared_outputs@));
    out
}

/// A run with one package shows just that package's lines.
pub proof fn one_package_shows_its_lines(p: (String, Vec<String>))
    ensures
        package_lines(seq![p]) == views(p.1@),
{
}

/// Each further package is shown after an empty line that separates it
/// from the packages before it.
pub proof fn each_further_package_follows_a_blank_line(
    pkgs: Seq<(String, Vec<String>)>,
    p: (String, Vec<String>),
)
    requires
        pkgs.len() > 0,
    ensures
        package_lines(pkgs.push(p)) == package_lines(pkgs).push(Seq::<char>::empty()) + views(p.1@),
{
    assert(pkgs.push(p).drop_last() =~= pkgs);
}

/// How many lines the packages have, all together.
pub open spec fn line_total(pkgs: Seq<(String, Vec<String>)>) -> nat
    decreases pkgs.len(),
{
    if pkgs.len() == 0 {
        0
    } else {
        line_total(pkgs.drop_last()) + pkgs.last().1@.len()
    }
}

proof fn lemma_package_lines_len(pkgs: Seq<(String, Vec<String>)>)
    ensures
        package_lines(pkgs).len() == line_total(pkgs) + if pkgs.len() > 0 {
            pkgs.len() - 1
        } else {
            0
        },
    decreases pkgs.len(),
{
    if pkgs.len() > 1 {
        let d = pkgs.drop_last();
        lemma_package_lines_len(d);
        assert(views(pkgs.last().1@).len() == pkgs.last().1@.len());
        assert(package_lines(pkgs) == package_lines(d).push(Seq::<char>::empty()) + views(
            pkgs.last().1@,
        ));
        assert(package_lines(d).len() == line_total(d) + d.len() - 1);
        assert(line_total(pkgs) == line_total(d) + pkgs.last().1@.len());
    } else if pkgs.len() == 1 {
        assert(pkgs.drop_last().len() == 0);
        assert(line_total(pkgs.drop_last()) == 0);
        assert(pkgs.last() == pkgs[0]);
        assert(views(pkgs[0].1@).len() == pkgs[0].1@.len());
    }
}

/// The output has every line of every package, one blank line between
/// each two packages, and, when there are shared lines, one blank line and
/// the shared lines.
pub proof fn output_line_count(pkgs: Seq<(String, Vec<String>)>, shared: Seq<String>)
    ensures
        run_lines(pkgs, shared).len() == line_total(pkgs) + (if pkgs.len() > 0 {
            pkgs.len() - 1
        } else {
            0
        }) + (if shared.len() == 0 {
            0
        } else {
            1 + shared.len()
        }),
{
    lemma_package_lines_len(pkgs);
}

/// Package `k` (after the first) starts right after a blank line that
/// follows the packages before it, and its lines come there unchanged.
pub proof fn packages_are_separated_by_blank_lines(pkgs: Seq<(String, Vec<String>)>, k: int)
    requires
        1 <= k < pkgs.len(),
    ensures
        ({
            let before = package_lines(pkgs.take(k)).len() as int;
            let all = package_lines(pkgs);
            &&& all[before] == Seq::<char>::empty()
            &&& all.subrange(before + 1, before + 1 + pkgs[k].1@.len()) == views(pkgs[k].1@)
        }),
    decreases pkgs.len(),
{
    let n = pkgs.len();
    if k == n - 1 {
        assert(pkgs.take(k) =~= pkgs.drop_last());
        let all = package_lines(pkgs);
        let head = package_lines(pkgs.drop_last());
        assert(all == head.push(Seq::<char>::empty()) + views(pkgs.last().1@));
        assert(all[head.len() as int] == Seq::<char>::empty());
        assert(all.subrange(head.len() as int + 1, head.len() as int + 1 + pkgs[k].1@.len()) =~= views(
            pkgs[k].1@,
        ));
    } else {
        let d = pkgs.drop_last();
        packages_are_separated_by_blank_lines(d, k);
        assert(d.take(k) =~= pkgs.take(k));
        assert(d[k] == pkgs[k]);
        let all = package_lines(pkgs);
        let head = package_lines(d);
        assert(all == head.push(Seq::<char>::empty()) + views(pkgs.last().1@));
        let before = package_lines(pkgs.take(k)).len() as int;
        assert(before + 1 + pkgs[k].1@.len() <= head.len()) by {
            lemma_prefix_fits(d, k);
        }
        assert(all[before] == head[before]);
        assert(all.subrange(before + 1, before + 1 + pkgs[k].1@.len()) =~= head.subrange(
            before + 1,
            before + 1 + pkgs[k].1@.len(),
        ));
    }
}

proof fn lemma_prefix_fits(pkgs: Seq<(String, Vec<String>)>, k: int)
    requires
        1 <= k < pkgs.len(),
    ensures
        package_lines(pkgs.take(k)).len() + 1 + pkgs[k].1@.len() <= package_lines(pkgs).len(),
    decreases pkgs.len(),
{
    if k == pkgs.len() - 1 {
        assert(pkgs.take(k) =~= pkgs.drop_last());
    } else {
        lemma_prefix_fits(pkgs.drop_last(), k);
        assert(pkgs.drop_last().take(k) =~= pkgs.take(k));
        assert(pkgs.drop_last()[k] == pkgs[k]);
    }
}

/// Shared lines, when there are any, come last, right after a blank line
/// that follows the packages' lines; without them the output is the
/// packages' lines alone.
pub proof fn shared_lines_come_last(pkgs: Seq<(String, Vec<String>)>, shared: Seq<String>)
    ensures
        run_lines(pkgs, shared).take(package_lines(pkgs).len() as int) == package_lines(pkgs),
        shared.len() == 0 ==> run_lines(pkgs, shared) == package_lines(pkgs),
        shared.len() > 0 ==> ({
            let n = package_lines(pkgs).len() as int;
            &&& run_lines(pkgs, shared)[n] == Seq::<char>::empty()
            &&& run_lines(pkgs, shared).skip(n + 1) == views(shared)
        }),
{
    let n = package_lines(pkgs).len() as int;
    assert(run_lines(pkgs, shared).take(n) =~= package_lines(pkgs));
    if shared.len() == 0 {
        assert(run_lines(pkgs, shared) =~= package_lines(pkgs));
    } else {
        assert(run_lines(pkgs, shared).skip(n + 1) =~= views(shared));
    }
}

/// The section appended to the GitHub step summary for the released tags.
pub open spec fn step_summary_text(tags: Seq<PlannedTag>) -> Seq<char>
    decreases tags.len(),
{
    if tags.len() == 0 {
        "## Released\n\n"@
    } else {
        step_summary_text(tags.drop_last()) + "### "@ + tags.last().tag@ + "\n\n"@
            + tags.last().body@ + "\n"@
    }
}

/// The section appended to the GitHub step summary: a `Released` heading,
/// then each tag as a heading followed by its release notes.
pub fn step_summary(tags: &[PlannedTag]) -> (res: String)
    ensures
        res@ == step_summary_text(tags@),
{
    let mut out = "## Released\n\n".to_owned();
    let mut i: usize = 0;
    while i < tags.len()
        invariant
            i <= tags@.len(),
            out@ == step_summary_text(tags@.take(i as int)),
        decreases tags@.len() - i,
    {
        push_all(&mut out, "### ");
        push_all(&mut out, tags[i].tag.as_str());
        push_all(&mut out, "\n\n");
        push_all(&mut out, tags[i].body.as_str());
        push_all(&mut out, "\n");
        proof {
            assert(tags@.take(i + 1).drop_last() =~= tags@.take(i as int));
        }
        i = i + 1;
        assert(out@ =~= step_summary_text(tags@.take(i as int)));
    }
    assert(tags@.take(tags@.len() as int) =~= tags@);
    out
}


/// An empty summary is just the `Released` heading.
pub proof fn summary_of_no_tags_is_the_heading()
    ensures
        step_summary_text(Seq::<PlannedTag>::empty()) == "## Released\n\n"@,
{
}

/// Every tag adds its own section at the end, whatever its other fields
/// (pre-releases included): a `### <tag>` heading, an empty line, its
/// release notes and a newline.
pub proof fn each_tag_adds_its_section(tags: Seq<PlannedTag>, t: PlannedTag)
    ensures
        step_summary_text(tags.push(t)) == step_summary_text(tags) + "### "@ + t.tag@ + "\n\n"@
            + t.body@ + "\n"@,
{
    assert(tags.push(t).drop_last() =~= tags);
}

/// How long the tags' sections are, all together (7 characters of
/// markup per tag besides its name and notes).
pub open spec fn sections_length(tags: Seq<PlannedTag>) -> nat
    decreases tags.len(),
{
    if tags.len() == 0 {
        0
    } else {
        sections_length(tags.drop_last()) + tags.last().tag@.len() + tags.last().body@.len() + 7
    }
}

/// The summary is the 13-character heading followed by a section for
/// every tag: its length is the heading's plus every section's.
pub proof fn summary_length(tags: Seq<PlannedTag>)
    ensures
        step_summary_text(tags).len() == 13 + sections_length(tags),
    decreases tags.len(),
{
    reveal_strlit("## Released\n\n");
    reveal_strlit("### ");
    reveal_strlit("\n\n");
    reveal_strlit("\n");
    if tags.len() > 0 {
        summary_length(tags.drop_last());
    }
}

/// The summary of the first tags is how the summary of all of them
/// begins: sections keep the order of the tags.
pub proof fn summary_keeps_tag_order(tags: Seq<PlannedTag>, k: int)
    requires
        0 <= k <= tags.len(),
    ensures
        step_summary_text(tags.take(k)).len() <= step_summary_text(tags).len(),
        step_summary_text(tags).take(step_summary_text(tags.take(k)).len() as int)
            == step_summary_text(tags.take(k)),
    decreases tags.len(),
{
    if k == tags.len() {
        assert(tags.take(k) =~= tags);
        assert(step_summary_text(tags).take(step_summary_text(tags).len() as int) =~= step_summary_text(tags));
    } else {
        summary_keeps_tag_order(tags.drop_last(), k);
        assert(tags.drop_last().take(k) =~= tags.take(k));
        let head = step_summary_text(tags.drop_last());
        let part = step_summary_text(tags.take(k));
        assert(step_summary_text(tags) == head + "### "@ + tags.last().tag@ + "\n\n"@
            + tags.last().body@ + "\n"@);
        assert(step_summary_text(tags).take(part.len() as int) =~= head.take(part.len() as int));
    }
}

} // verus!
