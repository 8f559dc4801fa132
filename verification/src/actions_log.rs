//! The tail of the daemon's append-only activity log (`.actions.jsonl`), so
//! the UI can show exactly what the daemon changed on this machine. The
//! caller reads the file's lines; this module picks the ones to show.

use vstd::prelude::*;
use crate::text::views;

verus! {

/// Whether `serde_json::from_str::<serde_json::Value>` parses the text as
/// one JSON document that is an object.
pub uninterp spec fn is_json_object_text(text: Seq<char>) -> bool;

/// `serde_json::from_str::<serde_json::Value>` on one line, telling only
/// whether it gave a `Value::Object`; its verdict is named by
/// `is_json_object_text`.
#[verifier::external_body]
pub fn is_json_object(line: &str) -> (r: bool)
    ensures
        r == is_json_object_text(line@),
{
    matches!(serde_json::from_str::<serde_json::Value>(line), Ok(serde_json::Value::Object(_)))
}

/// The lines that hold a JSON object, in their order.
pub open spec fn object_lines(lines: Seq<Seq<char>>) -> Seq<Seq<char>>
    decreases lines.len(),
{
    if lines.len() == 0 {
        seq![]
    } else if is_json_object_text(lines.last()) {
        object_lines(lines.drop_last()).push(lines.last())
    } else {
        object_lines(lines.drop_last())
    }
}

/// The last `n` elements of `s`, or all of them where there are fewer.
pub open spec fn last_n<A>(s: Seq<A>, n: nat) -> Seq<A> {
    if s.len() > n {
        s.subrange(s.len() - n, s.len() as int)
    } else {
        s
    }
}

/// The up to `limit` most recent actions, oldest first: of the log's lines,
/// the last `limit` that hold a JSON object. Other lines (not JSON, or JSON
/// that is not an object) are skipped.
pub fn recent(lines: &Vec<String>, limit: usize) -> (r: Vec<String>)
    ensures
        views(r@) == last_n(object_lines(views(lines@)), limit as nat),
{
    let mut kept: Vec<String> = Vec::new();
    let n = lines.len();
    let mut i: usize = 0;
    while i < n
        invariant
            n == lines@.len(),
            i <= n,
            views(kept@) == object_lines(views(lines@).take(i as int)),
        decreases n - i,
    {
        assert(views(lines@).take(i + 1).drop_last() =~= views(lines@).take(i as int));
        if is_json_object(lines[i].as_str()) {
            let ghost before = kept@;
            kept.push(lines[i].clone());
            assert(views(kept@) =~= views(before).push(lines@[i as int]@));
        }
        i = i + 1;
    }
    assert(views(lines@).take(n as int) =~= views(lines@));
    if kept.len() > limit {
        let at = kept.len() - limit;
        let ghost all = kept@;
        let tail = kept.split_off(at);
        assert(views(tail@) =~= views(all).subrange(at as int, all.len() as int));
        tail
    } else {
        kept
    }
}

/// What `recent` returns is the newest part of the log, oldest first: the
/// last `min(limit, n)` of the `n` JSON lines, so never more than `limit`.
pub proof fn law_recent_is_newest_suffix<A>(s: Seq<A>, limit: nat)
    ensures
        last_n(s, limit).len() == if s.len() > limit {
            limit
        } else {
            s.len()
        },
        last_n(s, limit) == s.subrange(s.len() - last_n(s, limit).len(), s.len() as int),
{
    if s.len() <= limit {
        assert(s.subrange(0, s.len() as int) =~= s);
    }
}

} // verus!
