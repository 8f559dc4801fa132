//! The CLIs on `PATH`: links in `~/.local/bin`, and a line in the shell
//! start-up files that is tagged with a marker. They are added when the
//! runtime is installed and removed on uninstall; this module says where
//! they go and rewrites the shell files' text.

use vstd::prelude::*;
use crate::daemon_paths::{join, join_text};
use crate::text::{lines_of, occurs_in, push_char, scan_lines, split_lines, str_contains, strip_cr, views};

verus! {

/// The text that marks the shell-rc lines the app adds.
pub open spec fn rc_marker() -> Seq<char> {
    "# hyperspell"@
}

/// `<home>/.local/bin`: where the CLIs are linked onto `PATH`.
pub open spec fn local_bin_of(home: Seq<char>) -> Seq<char> {
    join_text(join_text(home, ".local"@), "bin"@)
}

/// The links the app puts on `PATH`: the daemon CLI and `uv`.
pub open spec fn cli_links_of(home: Seq<char>) -> Seq<Seq<char>> {
    seq![join_text(local_bin_of(home), "hyperspell"@), join_text(local_bin_of(home), "uv"@)]
}

/// The shell start-up files the app may have added a line to.
pub open spec fn rc_files_of(home: Seq<char>) -> Seq<Seq<char>> {
    seq![join_text(home, ".zshrc"@), join_text(home, ".bashrc"@)]
}

/// The marker that tags the shell-rc lines the app adds.
pub fn marker() -> (r: String)
    ensures
        r@ == rc_marker(),
{
    String::from_str("# hyperspell")
}

/// The `PATH` links under `<home>/.local/bin`.
pub fn cli_links(home: &str) -> (r: Vec<String>)
    ensures
        views(r@) == cli_links_of(home@),
{
    let local = join(home, ".local");
    let bin = join(local.as_str(), "bin");
    let a = join(bin.as_str(), "hyperspell");
    let b = join(bin.as_str(), "uv");
    let mut r: Vec<String> = Vec::new();
    r.push(a);
    r.push(b);
    assert(views(r@) =~= cli_links_of(home@));
    r
}

/// The shell start-up files under `home`.
pub fn rc_files(home: &str) -> (r: Vec<String>)
    ensures
        views(r@) == rc_files_of(home@),
{
    let mut r: Vec<String> = Vec::new();
    r.push(join(home, ".zshrc"));
    r.push(join(home, ".bashrc"));
    assert(views(r@) =~= rc_files_of(home@));
    r
}

/// The lines that do not contain `marker`, in order.
pub open spec fn unmarked(lines: Seq<Seq<char>>, marker: Seq<char>) -> Seq<Seq<char>>
    decreases lines.len(),
{
    if lines.len() == 0 {
        seq![]
    } else if occurs_in(lines.last(), marker) {
        unmarked(lines.drop_last(), marker)
    } else {
        unmarked(lines.drop_last(), marker).push(lines.last())
    }
}

/// Each line followed by a newline.
pub open spec fn terminated(lines: Seq<Seq<char>>) -> Seq<char>
    decreases lines.len(),
{
    if lines.len() == 0 {
        seq![]
    } else {
        terminated(lines.drop_last()) + lines.last() + seq!['\n']
    }
}

/// A shell file's text with the marked lines taken out: the other lines
/// joined by newlines, plus a final newline.
pub open spec fn stripped(text: Seq<char>, marker: Seq<char>) -> Seq<char> {
    let kept = unmarked(lines_of(text), marker);
    if kept.len() == 0 {
        seq!['\n']
    } else {
        terminated(kept)
    }
}

/// Removes every line that contains `marker` from a shell file's text:
/// what is left is every other line, in order, each ended by a newline.
pub fn strip_marker_lines(text: &str, marker: &str) -> (r: String)
    ensures
        r@ == stripped(text@, marker@),
        r@ == if kept_lines(text@, marker@).len() == 0 {
            seq!['\n']
        } else {
            terminated(kept_lines(text@, marker@))
        },
{
    proof {
        law_strip_keeps_exactly_unmarked_lines(text@, marker@);
    }
    let lines = split_lines(text);
    let ghost ls = views(lines@);
    let mut out = String::new();
    let mut any = false;
    let mut i: usize = 0;
    while i < lines.len()
        invariant
            ls == views(lines@),
            ls == lines_of(text@),
            i <= lines@.len(),
            any == (unmarked(ls.take(i as int), marker@).len() > 0),
            out@ == terminated(unmarked(ls.take(i as int), marker@)),
        decreases lines@.len() - i,
    {
        assert(ls.take(i + 1).drop_last() =~= ls.take(i as int));
        assert(ls.take(i + 1).last() == lines@[i as int]@);
        if !str_contains(lines[i].as_str(), marker) {
            let ghost u = unmarked(ls.take(i as int), marker@);
            out.append(lines[i].as_str());
            push_char(&mut out, '\n');
            assert(u.push(lines@[i as int]@).drop_last() =~= u);
            assert(out@ =~= terminated(u) + lines@[i as int]@ + seq!['\n']);
            any = true;
        }
        i = i + 1;
    }
    assert(ls.take(lines@.len() as int) =~= ls);
    if !any {
        let mut r = String::new();
        push_char(&mut r, '\n');
        assert(r@ =~= seq!['\n']);
        r
    } else {
        out
    }
}

/// A line with neither a newline nor a carriage return in it.
pub open spec fn clean(line: Seq<char>) -> bool {
    forall|i: int| 0 <= i < line.len() ==> #[trigger] line[i] != '\n' && line[i] != '\r'
}

/// A line with no newline in it.
pub open spec fn one_line(line: Seq<char>) -> bool {
    forall|i: int| 0 <= i < line.len() ==> #[trigger] line[i] != '\n'
}

/// A line whose last character is a carriage return.
pub open spec fn ends_in_cr(line: Seq<char>) -> bool {
    line.len() > 0 && line.last() == '\r'
}

proof fn lemma_scan_append(a: Seq<char>, l: Seq<char>)
    requires
        one_line(l),
    ensures
        scan_lines(a + l) == (scan_lines(a).0, scan_lines(a).1 + l),
    decreases l.len(),
{
    if l.len() == 0 {
        assert(a + l =~= a);
        assert(scan_lines(a).1 + l =~= scan_lines(a).1);
    } else {
        let l2 = l.drop_last();
        assert(one_line(l2)) by {
            assert forall|i: int| 0 <= i < l2.len() implies #[trigger] l2[i] != '\n' by {
                assert(l2[i] == l[i]);
            }
        }
        lemma_scan_append(a, l2);
        assert((a + l).drop_last() =~= a + l2);
        assert((a + l).last() == l[l.len() - 1]);
        assert((scan_lines(a).1 + l2).push(l.last()) =~= scan_lines(a).1 + l);
    }
}

proof fn lemma_lines_of_terminated(k: Seq<Seq<char>>)
    requires
        forall|j: int| 0 <= j < k.len() ==> one_line(#[trigger] k[j]) && !ends_in_cr(k[j]),
    ensures
        scan_lines(terminated(k)) == (k, Seq::<char>::empty()),
        lines_of(terminated(k)) == k,
    decreases k.len(),
{
    if k.len() == 0 {
    } else {
        let k2 = k.drop_last();
        let l = k.last();
        assert(forall|j: int| 0 <= j < k2.len() ==> k2[j] == k[j]);
        lemma_lines_of_terminated(k2);
        let t = terminated(k2) + l + seq!['\n'];
        assert(one_line(l) && !ends_in_cr(l)) by {
            assert(l == k[k.len() - 1]);
        }
        lemma_scan_append(terminated(k2), l);
        assert(t.drop_last() =~= terminated(k2) + l);
        assert(Seq::<char>::empty() + l =~= l);
        assert(strip_cr(l) == l);
        assert(k2.push(l) =~= k);
    }
}

proof fn lemma_lines_one_line(t: Seq<char>)
    ensures
        forall|j: int| 0 <= j < scan_lines(t).0.len() ==> one_line(#[trigger] scan_lines(t).0[j]),
        one_line(scan_lines(t).1),
        forall|j: int| 0 <= j < lines_of(t).len() ==> one_line(#[trigger] lines_of(t)[j]),
    decreases t.len(),
{
    if t.len() > 0 {
        let t2 = t.drop_last();
        lemma_lines_one_line(t2);
        let (done, cur) = scan_lines(t2);
        if t.last() == '\n' {
            assert(one_line(strip_cr(cur))) by {
                if cur.len() > 0 && cur.last() == '\r' {
                    assert forall|i: int| 0 <= i < cur.drop_last().len() implies #[trigger] cur.drop_last()[i]
                        != '\n' by {
                        assert(cur.drop_last()[i] == cur[i]);
                    }
                }
            }
            assert forall|j: int| 0 <= j < done.push(strip_cr(cur)).len() implies one_line(
                #[trigger] done.push(strip_cr(cur))[j],
            ) by {
                if j < done.len() {
                    assert(done.push(strip_cr(cur))[j] == done[j]);
                }
            }
        } else {
            let c = t.last();
            assert forall|i: int| 0 <= i < cur.push(c).len() implies #[trigger] cur.push(c)[i]
                != '\n' by {
                if i < cur.len() {
                    assert(cur.push(c)[i] == cur[i]);
                }
            }
        }
    }
    let (done, cur) = scan_lines(t);
    if cur.len() > 0 {
        assert forall|j: int| 0 <= j < done.push(cur).len() implies one_line(
            #[trigger] done.push(cur)[j],
        ) by {
            if j < done.len() {
                assert(done.push(cur)[j] == done[j]);
            }
        }
    }
}

proof fn lemma_unmarked(ls: Seq<Seq<char>>, m: Seq<char>)
    requires
        forall|j: int| 0 <= j < ls.len() ==> one_line(#[trigger] ls[j]),
    ensures
        forall|j: int|
            0 <= j < unmarked(ls, m).len() ==> one_line(#[trigger] unmarked(ls, m)[j]),
        unmarked(unmarked(ls, m), m) == unmarked(ls, m),
    decreases ls.len(),
{
    if ls.len() > 0 {
        let ls2 = ls.drop_last();
        assert(forall|j: int| 0 <= j < ls2.len() ==> ls2[j] == ls[j]);
        lemma_unmarked(ls2, m);
        let u = unmarked(ls2, m);
        if !occurs_in(ls.last(), m) {
            assert(u.push(ls.last()).drop_last() =~= u);
            assert(one_line(ls.last())) by {
                assert(ls.last() == ls[ls.len() - 1]);
            }
            assert forall|j: int| 0 <= j < u.push(ls.last()).len() implies one_line(
                #[trigger] u.push(ls.last())[j],
            ) by {
                if j < u.len() {
                    assert(u.push(ls.last())[j] == u[j]);
                }
            }
        }
    }
}

/// Stripping the marked lines twice gives what stripping once gives, for
/// every text whose kept lines do not end in `\r` (a kept line that does,
/// such as a last line `a\r`, loses that `\r` on the second pass), and no
/// line of the result holds the marker, other than an empty line for an
/// empty marker.
pub proof fn law_strip_is_idempotent(text: Seq<char>, marker: Seq<char>)
    requires
        forall|j: int|
            0 <= j < unmarked(lines_of(text), marker).len() ==> !ends_in_cr(
                #[trigger] unmarked(lines_of(text), marker)[j],
            ),
    ensures
        stripped(stripped(text, marker), marker) == stripped(text, marker),
        forall|j: int|
            0 <= j < lines_of(stripped(text, marker)).len() ==> (#[trigger] lines_of(
                stripped(text, marker),
            )[j] == Seq::<char>::empty() || !occurs_in(lines_of(stripped(text, marker))[j], marker)),
{
    lemma_lines_one_line(text);
    let k = unmarked(lines_of(text), marker);
    lemma_unmarked(lines_of(text), marker);
    if k.len() == 0 {
        let nl = seq!['\n'];
        let e = Seq::<char>::empty();
        assert(nl.drop_last() =~= e);
        assert(nl.last() == '\n');
        assert(scan_lines(e) == (Seq::<Seq<char>>::empty(), e));
        assert(strip_cr(e) == e);
        assert(scan_lines(nl) == (Seq::<Seq<char>>::empty().push(e), e));
        let one = seq![e];
        assert(Seq::<Seq<char>>::empty().push(e) =~= one);
        assert(lines_of(nl) == one);
        assert(one.drop_last() =~= Seq::<Seq<char>>::empty());
        assert(one.last() == e);
        assert(terminated(Seq::<Seq<char>>::empty()) == e);
        assert(e + e + nl =~= nl);
        assert(terminated(one) == nl);
    } else {
        lemma_lines_of_terminated(k);
        lemma_unmarked_excludes(lines_of(text), marker);
    }
}

/// The lines that do not contain `marker` are exactly what a filter on
/// "does not contain the marker" keeps, in order.
proof fn lemma_unmarked_is_filter(lines: Seq<Seq<char>>, marker: Seq<char>)
    ensures
        unmarked(lines, marker) == lines.filter(|l: Seq<char>| !occurs_in(l, marker)),
    decreases lines.len(),
{
    reveal(Seq::filter);
    if lines.len() > 0 {
        lemma_unmarked_is_filter(lines.drop_last(), marker);
    }
}

/// The lines of `text` that do not contain `marker`, in order.
pub open spec fn kept_lines(text: Seq<char>, marker: Seq<char>) -> Seq<Seq<char>> {
    lines_of(text).filter(|l: Seq<char>| !occurs_in(l, marker))
}

/// Stripping keeps exactly the lines of the text that do not contain the
/// marker, in their order, each ended by a newline (a lone newline where
/// none is left); every line without the marker is kept, and no line with
/// it.
pub proof fn law_strip_keeps_exactly_unmarked_lines(text: Seq<char>, marker: Seq<char>)
    ensures
        stripped(text, marker) == if kept_lines(text, marker).len() == 0 {
            seq!['\n']
        } else {
            terminated(kept_lines(text, marker))
        },
        forall|i: int|
            0 <= i < lines_of(text).len() && !occurs_in(#[trigger] lines_of(text)[i], marker)
                ==> kept_lines(text, marker).contains(lines_of(text)[i]),
        forall|l: Seq<char>|
            #[trigger] kept_lines(text, marker).contains(l) ==> lines_of(text).contains(l)
                && !occurs_in(l, marker),
{
    let pred = |l: Seq<char>| !occurs_in(l, marker);
    let ls = lines_of(text);
    lemma_unmarked_is_filter(ls, marker);
    assert(kept_lines(text, marker) == ls.filter(pred));
    assert forall|i: int| 0 <= i < ls.len() && !occurs_in(#[trigger] ls[i], marker) implies ls.filter(
        pred,
    ).contains(ls[i]) by {
        ls.lemma_filter_contains(pred, i);
    }
    assert forall|l: Seq<char>| #[trigger] ls.filter(pred).contains(l) implies ls.contains(l)
        && !occurs_in(l, marker) by {
        let j = choose|j: int| 0 <= j < ls.filter(pred).len() && ls.filter(pred)[j] == l;
        ls.lemma_filter_pred(pred, j);
        ls.lemma_filter_contains_rev(pred, l);
    }
}

proof fn lemma_unmarked_excludes(ls: Seq<Seq<char>>, m: Seq<char>)
    ensures
        forall|j: int| 0 <= j < unmarked(ls, m).len() ==> !occurs_in(#[trigger] unmarked(ls, m)[j], m),
    decreases ls.len(),
{
    if ls.len() > 0 {
        let ls2 = ls.drop_last();
        lemma_unmarked_excludes(ls2, m);
        let u = unmarked(ls2, m);
        if !occurs_in(ls.last(), m) {
            assert forall|j: int| 0 <= j < u.push(ls.last()).len() implies !occurs_in(
                #[trigger] u.push(ls.last())[j],
                m,
            ) by {
                if j < u.len() {
                    assert(u.push(ls.last())[j] == u[j]);
                }
            }
        }
    }
}

/// The line that puts `~/.local/bin` on `PATH`, tagged with the marker.
pub open spec fn path_line() -> Seq<char> {
    "export PATH=\"$HOME/.local/bin:$PATH\" # hyperspell"@
}

/// A shell file's text with the `PATH` line appended on a line of its own.
pub open spec fn with_path_line(text: Seq<char>) -> Seq<char> {
    if text.len() == 0 || text.last() == '\n' {
        text + path_line() + seq!['\n']
    } else {
        text + seq!['\n'] + path_line() + seq!['\n']
    }
}

/// The shell file's new text with the `PATH` line added, or `None` where
/// the file already carries a marked line.
pub fn add_path_line(text: &str) -> (r: Option<String>)
    ensures
        occurs_in(text@, rc_marker()) ==> r is None,
        !occurs_in(text@, rc_marker()) ==> (r matches Some(t) && t@ == with_path_line(text@)),
{
    let m = marker();
    if str_contains(text, m.as_str()) {
        return None;
    }
    let n = text.unicode_len();
    let mut r = text.to_string();
    if n > 0 && text.get_char(n - 1) != '\n' {
        push_char(&mut r, '\n');
    }
    r.append("export PATH=\"$HOME/.local/bin:$PATH\" # hyperspell");
    push_char(&mut r, '\n');
    Some(r)
}

proof fn lemma_path_line()
    ensures
        clean(path_line()),
        occurs_in(path_line(), rc_marker()),
{
    reveal_strlit("export PATH=\"$HOME/.local/bin:$PATH\" # hyperspell");
    reveal_strlit("# hyperspell");
    let p = path_line();
    let m = rc_marker();
    let i = p.len() - m.len();
    assert(p.subrange(i, i + m.len()) =~= m);
}

/// Adding the `PATH` line is done once: the text it gives carries the
/// marker, so a second install leaves the shell file alone.
pub proof fn law_path_line_added_once(text: Seq<char>)
    ensures
        occurs_in(with_path_line(text), rc_marker()),
{
    lemma_path_line();
    let p = path_line();
    let m = rc_marker();
    let i = p.len() - m.len();
    let t1 = if text.len() == 0 || text.last() == '\n' {
        text
    } else {
        text + seq!['\n']
    };
    let w = with_path_line(text);
    assert(w =~= t1 + p + seq!['\n']);
    let j = t1.len() + i;
    reveal_strlit("export PATH=\"$HOME/.local/bin:$PATH\" # hyperspell");
    reveal_strlit("# hyperspell");
    assert(p.subrange(i, i + m.len()) =~= m);
    assert(w.subrange(j, j + m.len()) =~= p.subrange(i, i + m.len()));
    assert(w.subrange(j, j + m.len()) == m);
}

/// Adding the `PATH` line and then stripping the marked lines gives what
/// stripping alone gives: uninstall takes away exactly what install added
/// (for a shell file that does not end in `\r`: a last line `a\r` without
/// a newline would lose its `\r` once the `PATH` line follows it).
pub proof fn law_strip_undoes_path_line(text: Seq<char>)
    requires
        !ends_in_cr(text),
    ensures
        stripped(with_path_line(text), rc_marker()) == stripped(text, rc_marker()),
{
    lemma_path_line();
    let (done, cur) = scan_lines(text);
    let pl = path_line();
    let nl = seq!['\n'];
    let t1 = if text.len() == 0 || text.last() == '\n' {
        text
    } else {
        text + nl
    };
    assert(scan_lines(t1) == (lines_of(text), Seq::<char>::empty())) by {
        if text.len() == 0 {
        } else if text.last() == '\n' {
        } else {
            assert((text + nl).drop_last() =~= text);
            let (d0, c0) = scan_lines(text.drop_last());
            assert(cur == c0.push(text.last()));
            assert(cur.last() == text.last());
            assert(strip_cr(cur) == cur);
            assert(cur.len() > 0);
        }
    }
    assert(with_path_line(text) =~= t1 + pl + nl);
    assert(one_line(pl));
    lemma_scan_append(t1, pl);
    assert((t1 + pl + nl).drop_last() =~= t1 + pl);
    assert(Seq::<char>::empty() + pl =~= pl);
    assert(strip_cr(pl) == pl) by {
        assert(pl.last() == pl[pl.len() - 1]);
    }
    let ls = lines_of(text);
    assert(lines_of(with_path_line(text)) == ls.push(pl));
    assert(ls.push(pl).drop_last() =~= ls);
    assert(unmarked(ls.push(pl), rc_marker()) == unmarked(ls, rc_marker()));
}

/// The links that put the CLIs on `PATH`: each pairs the link's path with
/// the program it points at (the daemon, and `uv`).
pub fn cli_link_targets(home: &str, daemon: &str, uv: &str) -> (r: Vec<(String, String)>)
    ensures
        r@.len() == 2,
        r@[0].0@ == cli_links_of(home@)[0],
        r@[0].1@ == daemon@,
        r@[1].0@ == cli_links_of(home@)[1],
        r@[1].1@ == uv@,
{
    let links = cli_links(home);
    assert(links@.len() == 2 && links@[0]@ == cli_links_of(home@)[0] && links@[1]@ == cli_links_of(
        home@,
    )[1]) by {
        assert(views(links@).len() == 2);
        assert(links@.map_values(|s: String| s@).len() == links@.len());
        assert(views(links@)[0] == links@[0]@);
        assert(views(links@)[1] == links@[1]@);
    }
    let mut r: Vec<(String, String)> = Vec::new();
    r.push((links[0].clone(), daemon.to_string()));
    r.push((links[1].clone(), uv.to_string()));
    r
}

/// Where the CLIs go on `PATH` for one user: the links (each with its
/// target) and the shell files that get the `PATH` line.
pub struct ExposePlan {
    pub links: Vec<(String, String)>,
    pub rc_files: Vec<String>,
}

/// `p` puts the daemon and `uv` on `PATH` under `home`.
pub open spec fn is_expose_plan(p: ExposePlan, home: Seq<char>, daemon: Seq<char>, uv: Seq<char>) -> bool {
    &&& p.links@.len() == 2
    &&& p.links@[0].0@ == cli_links_of(home)[0]
    &&& p.links@[0].1@ == daemon
    &&& p.links@[1].0@ == cli_links_of(home)[1]
    &&& p.links@[1].1@ == uv
    &&& views(p.rc_files@) == rc_files_of(home)
}

/// The plan for a given home directory; `None` where there is no home
/// directory, as there is then nowhere to put the links.
pub fn expose_plan(home: Option<&str>, daemon: &str, uv: &str) -> (r: Option<ExposePlan>)
    ensures
        home is None <==> r is None,
        home matches Some(h) ==> (r matches Some(p) && is_expose_plan(p, h@, daemon@, uv@)),
{
    match home {
        Some(h) => {
            let links = cli_link_targets(h, daemon, uv);
            let rc = rc_files(h);
            Some(ExposePlan { links, rc_files: rc })
        },
        None => None,
    }
}

/// The plan for this user, whose home directory `dirs::home_dir` finds;
/// `None` where there is no home directory.
pub fn current_expose_plan(daemon: &str, uv: &str) -> (r: Option<ExposePlan>)
    ensures
        r matches Some(p) ==> exists|home: Seq<char>| is_expose_plan(p, home, daemon@, uv@),
{
    match crate::daemon_paths::home_dir() {
        Some(h) => {
            let r = expose_plan(Some(h.as_str()), daemon, uv);
            assert(r matches Some(q) && is_expose_plan(q, h@, daemon@, uv@));
            r
        },
        None => expose_plan(None, daemon, uv),
    }
}

} // verus!
