//! The cache-map builder: groups manifest entries by uploaded id and
//! decides which ids must be downloaded into the cache directory.
//!
//! An id contributed by exactly one asset is indexed under that asset's
//! own path and needs no download. An id shared by several assets is
//! indexed under `<cacheDir>/<id>` and is downloaded exactly once. The
//! index is rebuilt from scratch on every run.

use vstd::prelude::*;

use crate::manifest::{InputManifest, Manifest};
use crate::text::{push_dec, spec_dec};

verus! {

/// The names recorded under uploaded id `id`, in manifest order.
pub open spec fn spec_contributors(s: Seq<(String, InputManifest)>, id: u64) -> Seq<Seq<char>>
    decreases s.len(),
{
    if s.len() == 0 {
        Seq::empty()
    } else {
        let prefix = spec_contributors(s.drop_last(), id);
        if s.last().1.id == Some(id) {
            prefix.push(s.last().0@)
        } else {
            prefix
        }
    }
}

/// Whether `id` occurs in `ids`.
pub open spec fn spec_in_ids(ids: Seq<u64>, id: u64) -> bool {
    exists|k: int| 0 <= k < ids.len() && ids[k] == id
}

/// The cache file path for a downloaded shared id.
pub open spec fn spec_cache_path(dir: Seq<char>, id: u64) -> Seq<char> {
    dir + "/"@ + spec_dec(id as nat)
}

/// Inserts `id` into a strictly ascending vector, keeping it sorted and
/// duplicate-free.
fn insert_sorted(ids: &mut Vec<u64>, id: u64)
    requires
        forall|a: int, b: int|
            0 <= a < b < old(ids)@.len() ==> old(ids)@[a] < old(ids)@[b],
    ensures
        forall|a: int, b: int|
            0 <= a < b < final (ids)@.len() ==> final (ids)@[a] < final (ids)@[b],
        forall|x: u64| spec_in_ids(final (ids)@, x) <==> spec_in_ids(old(ids)@, x) || x == id,
{
    let n = ids.len();
    let mut p: usize = 0;
    while p < n && ids[p] < id
        invariant
            n == ids@.len(),
            0 <= p <= n,
            *ids == *old(ids),
            forall|a: int, b: int| 0 <= a < b < ids@.len() ==> ids@[a] < ids@[b],
            forall|k: int| 0 <= k < p ==> ids@[k] < id,
        decreases n - p,
    {
        p = p + 1;
    }
    if p < n && ids[p] == id {
        return ;
    }
    proof {
        assert(p == n || old(ids)@[p as int] > id);
    }
    ids.insert(p, id);
    proof {
        assert(ids@[p as int] == id);
        assert forall|a: int, b: int| 0 <= a < b < ids@.len() implies ids@[a] < ids@[b] by {
            if b < p {
                assert(ids@[a] == old(ids)@[a]);
                assert(ids@[b] == old(ids)@[b]);
            } else if b == p {
                assert(ids@[a] == old(ids)@[a]);
            } else {
                assert(ids@[b] == old(ids)@[b - 1]);
                if a < p {
                    assert(ids@[a] == old(ids)@[a]);
                    if p < b - 1 {
                        assert(old(ids)@[p as int] < old(ids)@[b - 1]);
                    }
                } else if a == p {
                    if p < b - 1 {
                        assert(old(ids)@[p as int] < old(ids)@[b - 1]);
                    }
                } else {
                    assert(ids@[a] == old(ids)@[a - 1]);
                }
            }
        }
        assert forall|x: u64| spec_in_ids(ids@, x) implies spec_in_ids(old(ids)@, x) || x
            == id by {
            let k = choose|k: int| 0 <= k < ids@.len() && ids@[k] == x;
            if k < p {
                assert(old(ids)@[k] == x);
            } else if k > p {
                assert(old(ids)@[k - 1] == x);
            }
        }
        assert forall|x: u64| spec_in_ids(old(ids)@, x) implies spec_in_ids(ids@, x) by {
            let k = choose|k: int| 0 <= k < old(ids)@.len() && old(ids)@[k] == x;
            if k < p {
                assert(ids@[k] == x);
            } else {
                assert(ids@[k + 1] == x);
            }
        }
    }
}

/// The uploaded ids present in the manifest, ascending, each exactly once.
pub fn uploaded_ids(m: &Manifest) -> (ids: Vec<u64>)
    ensures
        forall|a: int, b: int| 0 <= a < b < ids@.len() ==> ids@[a] < ids@[b],
        forall|id: u64| spec_in_ids(ids@, id) <==> spec_contributors(m.inputs@, id).len() > 0,
{
    let n = m.inputs.len();
    let mut ids: Vec<u64> = Vec::new();
    let mut i: usize = 0;
    while i < n
        invariant
            n == m.inputs@.len(),
            0 <= i <= n,
            forall|a: int, b: int| 0 <= a < b < ids@.len() ==> ids@[a] < ids@[b],
            forall|id: u64|
                spec_in_ids(ids@, id) <==> spec_contributors(m.inputs@.take(i as int), id).len()
                    > 0,
        decreases n - i,
    {
        proof {
            assert forall|id: u64|
                spec_contributors(m.inputs@.take(i + 1), id) == if m.inputs@[i as int].1.id
                    == Some(id) {
                    spec_contributors(m.inputs@.take(i as int), id).push(m.inputs@[i as int].0@)
                } else {
                    spec_contributors(m.inputs@.take(i as int), id)
                } by {
                assert(m.inputs@.take(i + 1).drop_last() =~= m.inputs@.take(i as int));
                assert(m.inputs@.take(i + 1).last() == m.inputs@[i as int]);
            }
        }
        match m.inputs[i].1.id {
            Some(v) => {
                insert_sorted(&mut ids, v);
            },
            None => {},
        }
        i = i + 1;
    }
    proof {
        assert(m.inputs@.take(n as int) =~= m.inputs@);
    }
    ids
}

/// Counts the contributors for `id` and hands back the first one.
fn contributors_for(m: &Manifest, id: u64) -> (r: (usize, Option<String>))
    ensures
        r.0 == spec_contributors(m.inputs@, id).len(),
        r.0 > 0 ==> (r.1 matches Some(name) && name@ == spec_contributors(m.inputs@, id)[0]),
        r.0 == 0 ==> r.1 is None,
{
    let n = m.inputs.len();
    let mut count: usize = 0;
    let mut first: Option<String> = None;
    let mut i: usize = 0;
    while i < n
        invariant
            n == m.inputs@.len(),
            0 <= i <= n,
            count == spec_contributors(m.inputs@.take(i as int), id).len(),
            count > 0 ==> (first matches Some(name) && name@ == spec_contributors(
                m.inputs@.take(i as int),
                id,
            )[0]),
            count == 0 ==> first is None,
            count <= i,
        decreases n - i,
    {
        proof {
            assert(m.inputs@.take(i + 1).drop_last() =~= m.inputs@.take(i as int));
            assert(m.inputs@.take(i + 1).last() == m.inputs@[i as int]);
        }
        let entry_id = m.inputs[i].1.id;
        let is_match = match entry_id {
            Some(v) => v == id,
            None => false,
        };
        if is_match {
            if count == 0 {
                first = Some(m.inputs[i].0.clone());
            }
            count = count + 1;
        }
        i = i + 1;
    }
    proof {
        assert(m.inputs@.take(n as int) =~= m.inputs@);
    }
    (count, first)
}

/// What a cache-map run must produce: the index entries, ascending by id,
/// and the ids whose content must be downloaded into the cache directory.
#[derive(Clone, Debug)]
pub struct CachePlan {
    pub index: Vec<(u64, String)>,
    pub downloads: Vec<u64>,
}

/// Builds the cache-map plan for a manifest.
///
/// The index holds exactly one entry per uploaded id, ascending. An id
/// with a single contributor is indexed under that contributor's path and
/// is not downloaded; an id with several contributors is indexed under
/// `<cacheDir>/<id>` and appears exactly once in the download list, which
/// is also ascending.
pub fn plan_cache_map(m: &Manifest, cache_dir: &str) -> (r: CachePlan)
    ensures
        forall|a: int, b: int|
            0 <= a < b < r.index@.len() ==> (#[trigger] r.index@[a]).0 < (#[trigger] r.index@[b]).0,
        forall|id: u64|
            (exists|k: int| 0 <= k < r.index@.len() && (#[trigger] r.index@[k]).0 == id)
                <==> spec_contributors(m.inputs@, id).len() > 0,
        forall|k: int|
            0 <= k < r.index@.len() ==> {
                let id = (#[trigger] r.index@[k]).0;
                let cs = spec_contributors(m.inputs@, id);
                &&& cs.len() > 0
                &&& (cs.len() == 1 ==> r.index@[k].1@ == cs[0])
                &&& (cs.len() > 1 ==> r.index@[k].1@ == spec_cache_path(cache_dir@, id))
            },
        forall|a: int, b: int|
            0 <= a < b < r.downloads@.len() ==> r.downloads@[a] < r.downloads@[b],
        forall|id: u64|
            spec_in_ids(r.downloads@, id) <==> spec_contributors(m.inputs@, id).len() > 1,
{
    let ids = uploaded_ids(m);
    let n = ids.len();
    let mut index: Vec<(u64, String)> = Vec::new();
    let mut downloads: Vec<u64> = Vec::new();
    let mut i: usize = 0;
    while i < n
        invariant
            n == ids@.len(),
            0 <= i <= n,
            forall|a: int, b: int| 0 <= a < b < ids@.len() ==> ids@[a] < ids@[b],
            forall|id: u64| spec_in_ids(ids@, id) <==> spec_contributors(m.inputs@, id).len() > 0,
            index@.len() == i,
            forall|k: int| 0 <= k < i ==> (#[trigger] index@[k]).0 == ids@[k],
            forall|k: int|
                0 <= k < i ==> {
                    let id = (#[trigger] index@[k]).0;
                    let cs = spec_contributors(m.inputs@, id);
                    &&& cs.len() > 0
                    &&& (cs.len() == 1 ==> index@[k].1@ == cs[0])
                    &&& (cs.len() > 1 ==> index@[k].1@ == spec_cache_path(cache_dir@, id))
                },
            forall|a: int, b: int|
                0 <= a < b < downloads@.len() ==> downloads@[a] < downloads@[b],
            forall|id: u64|
                spec_in_ids(downloads@, id) <==> (spec_in_ids(ids@.take(i as int), id)
                    && spec_contributors(m.inputs@, id).len() > 1),
        decreases n - i,
    {
        let id = ids[i];
        proof {
            assert(spec_in_ids(ids@, id));
            assert(ids@.take(i + 1)[i as int] == id);
            assert forall|x: u64| spec_in_ids(ids@.take(i as int), x) implies spec_in_ids(
                ids@.take(i + 1),
                x,
            ) by {
                let k = choose|k: int| 0 <= k < i && #[trigger] ids@.take(i as int)[k] == x;
                assert(ids@.take(i + 1)[k] == x);
            }
            assert forall|x: u64|
                spec_in_ids(ids@.take(i + 1), x) && !spec_in_ids(ids@.take(i as int), x) implies x
                == id by {
                let k = choose|k: int| 0 <= k < i + 1 && #[trigger] ids@.take(i + 1)[k] == x;
                if k < i {
                    assert(ids@.take(i as int)[k] == x);
                }
            }
        }
        let (count, first) = contributors_for(m, id);
        if count == 1 {
            match first {
                Some(name) => {
                    index.push((id, name));
                },
                None => {
                    proof {
                        assert(false);
                    }
                },
            }
        } else {
            let mut path = String::new();
            path.append(cache_dir);
            path.append("/");
            push_dec(id, &mut path);
            proof {
                assert(path@ =~= spec_cache_path(cache_dir@, id));
            }
            index.push((id, path));
            let ghost pre = downloads@;
            downloads.push(id);
            proof {
                assert(downloads@ == pre.push(id));
                assert(downloads@.last() == id);
                assert forall|a: int| 0 <= a < downloads@.len() - 1 implies downloads@[a]
                    < id by {
                    let x = downloads@[a];
                    assert(pre[a] == x);
                    assert(spec_in_ids(pre, x));
                    assert(spec_in_ids(ids@.take(i as int), x));
                    let k = choose|k: int|
                        0 <= k < ids@.take(i as int).len() && #[trigger] ids@.take(i as int)[k]
                            == x;
                    assert(ids@[k] == x);
                    assert(ids@[k] < ids@[i as int]);
                }
                assert forall|x: u64| spec_in_ids(downloads@, x) implies (spec_in_ids(
                    ids@.take(i + 1),
                    x,
                ) && spec_contributors(m.inputs@, x).len() > 1) by {
                    let k = choose|k: int| 0 <= k < downloads@.len() && downloads@[k] == x;
                    if k < downloads@.len() - 1 {
                        assert(pre[k] == x);
                        assert(spec_in_ids(pre, x));
                    } else {
                        assert(x == id);
                    }
                }
                assert forall|x: u64|
                    spec_in_ids(ids@.take(i + 1), x) && spec_contributors(m.inputs@, x).len()
                        > 1 implies spec_in_ids(downloads@, x) by {
                    if spec_in_ids(ids@.take(i as int), x) {
                        assert(spec_in_ids(pre, x));
                        let k = choose|k: int| 0 <= k < pre.len() && #[trigger] pre[k] == x;
                        assert(downloads@[k] == x);
                    } else {
                        assert(x == id);
                        assert(downloads@.last() == x);
                    }
                }
            }
        }
        i = i + 1;
    }
    proof {
        assert(ids@.take(n as int) =~= ids@);
    }
    let r = CachePlan { index, downloads };
    proof {
        assert forall|id: u64|
            (exists|k: int| 0 <= k < r.index@.len() && (#[trigger] r.index@[k]).0 == id)
                <==> spec_contributors(m.inputs@, id).len() > 0 by {
            if exists|k: int| 0 <= k < r.index@.len() && (#[trigger] r.index@[k]).0 == id {
                let k = choose|k: int| 0 <= k < r.index@.len() && (#[trigger] r.index@[k]).0
                    == id;
                assert(ids@[k] == id);
                assert(spec_in_ids(ids@, id));
            }
            if spec_contributors(m.inputs@, id).len() > 0 {
                assert(spec_in_ids(ids@, id));
                let k = choose|k: int| 0 <= k < ids@.len() && ids@[k] == id;
                assert(r.index@[k].0 == id);
            }
        }
    }
    r
}

/// A hexadecimal digit character, lowercase.
pub open spec fn spec_hex_digit(d: nat) -> char
    recommends
        d < 16,
{
    if d < 10 {
        ((48 + d) as u8) as char
    } else {
        ((87 + d) as u8) as char
    }
}

/// How one character is written inside a JSON string: quote, backslash
/// and the common control characters get two-character escapes, other
/// control characters a `\u00..` escape, everything else itself.
pub open spec fn spec_escape_char(c: char) -> Seq<char> {
    if c == '"' {
        seq!['\\', '"']
    } else if c == '\\' {
        seq!['\\', '\\']
    } else if c == '\n' {
        seq!['\\', 'n']
    } else if c == '\r' {
        seq!['\\', 'r']
    } else if c == '\t' {
        seq!['\\', 't']
    } else if (c as int) < 32 {
        seq![
            '\\',
            'u',
            '0',
            '0',
            spec_hex_digit(((c as int) / 16) as nat),
            spec_hex_digit(((c as int) % 16) as nat),
        ]
    } else {
        seq![c]
    }
}

/// A whole string escaped for JSON.
pub open spec fn spec_escape(s: Seq<char>) -> Seq<char>
    decreases s.len(),
{
    if s.len() == 0 {
        Seq::empty()
    } else {
        spec_escape(s.drop_last()) + spec_escape_char(s.last())
    }
}

/// Appends `s`, escaped for JSON, to `out`.
fn push_escaped(s: &str, out: &mut String)
    ensures
        final (out)@ == old(out)@ + spec_escape(s@),
{
    let len = s.unicode_len();
    let mut i: usize = 0;
    while i < len
        invariant
            len == s@.len(),
            0 <= i <= len,
            out@ == old(out)@ + spec_escape(s@.take(i as int)),
        decreases len - i,
    {
        let c = s.get_char(i);
        proof {
            assert(s@.take(i + 1).drop_last() =~= s@.take(i as int));
            assert(s@.take(i + 1).last() == s@[i as int]);
        }
        let ghost pre = out@;
        if c == '"' {
            out.push('\\');
            out.push('"');
        } else if c == '\\' {
            out.push('\\');
            out.push('\\');
        } else if c == '\n' {
            out.push('\\');
            out.push('n');
        } else if c == '\r' {
            out.push('\\');
            out.push('r');
        } else if c == '\t' {
            out.push('\\');
            out.push('t');
        } else if (c as u32) < 32 {
            let v = c as u32;
            out.push('\\');
            out.push('u');
            out.push('0');
            out.push('0');
            let hi: u32 = v / 16;
            let lo: u32 = v % 16;
            if hi < 10 {
                out.push((48 + hi as u8) as char);
            } else {
                out.push((87 + hi as u8) as char);
            }
            if lo < 10 {
                out.push((48 + lo as u8) as char);
            } else {
                out.push((87 + lo as u8) as char);
            }
        } else {
            out.push(c);
        }
        proof {
            assert(out@ =~= pre + spec_escape_char(c));
            assert(out@ =~= old(out)@ + spec_escape(s@.take(i + 1)));
        }
        i = i + 1;
    }
    proof {
        assert(s@.take(len as int) =~= s@);
    }
}

/// One line of the cache index: two-space indent, the id as a quoted
/// decimal key, and the escaped location string.
pub open spec fn spec_index_entry(id: u64, path: Seq<char>) -> Seq<char> {
    "  \""@ + spec_dec(id as nat) + "\": \""@ + spec_escape(path) + "\""@
}

/// The comma-joined entry lines of the cache index.
pub open spec fn spec_index_body(s: Seq<(u64, String)>) -> Seq<char>
    decreases s.len(),
{
    if s.len() == 0 {
        Seq::empty()
    } else if s.len() == 1 {
        spec_index_entry(s[0].0, s[0].1@)
    } else {
        spec_index_body(s.drop_last()) + ",\n"@ + spec_index_entry(s.last().0, s.last().1@)
    }
}

/// The cache index as a pretty-printed JSON object, entries in the given
/// order.
pub open spec fn spec_index_json(s: Seq<(u64, String)>) -> Seq<char> {
    if s.len() == 0 {
        "{}"@
    } else {
        "{\n"@ + spec_index_body(s) + "\n}"@
    }
}

/// Renders the cache index for writing to the index file.
pub fn render_cache_index(index: &Vec<(u64, String)>) -> (r: String)
    ensures
        r@ == spec_index_json(index@),
{
    let n = index.len();
    let mut out = String::new();
    if n == 0 {
        out.append("{}");
        proof {
            assert(out@ =~= spec_index_json(index@));
        }
        return out;
    }
    out.append("{\n");
    let mut i: usize = 0;
    while i < n
        invariant
            n == index@.len(),
            0 < n,
            0 <= i <= n,
            out@ == "{\n"@ + spec_index_body(index@.take(i as int)),
        decreases n - i,
    {
        proof {
            assert(index@.take(i + 1).drop_last() =~= index@.take(i as int));
            assert(index@.take(i + 1).last() == index@[i as int]);
            assert(index@.take(i + 1).len() == i + 1);
            if i == 0 {
                assert(index@.take(1int)[0] == index@[0]);
            }
        }
        if i > 0 {
            out.append(",\n");
        }
        let ghost pre = out@;
        out.append("  \"");
        push_dec(index[i].0, &mut out);
        out.append("\": \"");
        push_escaped(index[i].1.as_str(), &mut out);
        out.append("\"");
        proof {
            assert(out@ =~= pre + spec_index_entry(index@[i as int].0, index@[i as int].1@));
            assert(out@ =~= "{\n"@ + spec_index_body(index@.take(i + 1)));
        }
        i = i + 1;
    }
    out.append("\n}");
    proof {
        assert(index@.take(n as int) =~= index@);
        assert(out@ =~= spec_index_json(index@));
    }
    out
}

/// The asset list: each id as a decimal line of its own, in order.
pub open spec fn spec_asset_list(ids: Seq<u64>) -> Seq<char>
    decreases ids.len(),
{
    if ids.len() == 0 {
        Seq::empty()
    } else {
        spec_asset_list(ids.drop_last()) + spec_dec(ids.last() as nat) + "\n"@
    }
}

/// Renders the asset list for writing to the list file.
pub fn render_asset_list(ids: &Vec<u64>) -> (r: String)
    ensures
        r@ == spec_asset_list(ids@),
{
    let n = ids.len();
    let mut out = String::new();
    let mut i: usize = 0;
    while i < n
        invariant
            n == ids@.len(),
            0 <= i <= n,
            out@ == spec_asset_list(ids@.take(i as int)),
        decreases n - i,
    {
        proof {
            assert(ids@.take(i + 1).drop_last() =~= ids@.take(i as int));
            assert(ids@.take(i + 1).last() == ids@[i as int]);
        }
        let ghost pre = out@;
        push_dec(ids[i], &mut out);
        out.append("\n");
        proof {
            assert(out@ =~= spec_asset_list(ids@.take(i + 1)));
        }
        i = i + 1;
    }
    proof {
        assert(ids@.take(n as int) =~= ids@);
    }
    out
}

} // verus!
