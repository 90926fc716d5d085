//! Linux probe: a fontconfig query for every font's family and file, with
//! a fixed list of well-known distribution fonts as a last resort.

use vstd::prelude::*;
use vstd::string::StrSliceExecFns;
use vstd::string::StringExecFns;
use crate::FontInfo;
use crate::FontInfoView;
use crate::all_wf;
use crate::has_char;
use crate::views;

verus! {

/// The characters of `s` after its last occurrence of `c`; all of `s` when
/// `c` does not occur.
pub open spec fn after_last(s: Seq<char>, c: char) -> Seq<char>
    decreases s.len(),
{
    if s.len() == 0 {
        s
    } else if s.last() == c {
        Seq::empty()
    } else {
        after_last(s.drop_last(), c).push(s.last())
    }
}

/// `s` cut just before its last `.`; empty when `.` does not occur.
pub open spec fn drop_from_last_dot(s: Seq<char>) -> Seq<char>
    decreases s.len(),
{
    if s.len() == 0 {
        s
    } else if s.last() == '.' {
        s.drop_last()
    } else {
        drop_from_last_dot(s.drop_last())
    }
}

/// The stem of a path: what follows the last `/`, with the part from the
/// last `.` on stripped.  A base name whose only dot leads it — a hidden
/// file such as `.fonts` — keeps its whole name, so stripping happens only
/// when a dot stands past the first character.
pub open spec fn stem_of(s: Seq<char>) -> Seq<char> {
    let base = after_last(s, '/');
    if has_char(base.skip(1), '.') {
        drop_from_last_dot(base)
    } else {
        base
    }
}

/// `after_last` is the suffix that starts right after the last occurrence:
/// when nothing at or past `k` is `c`, and `k` is either the start or
/// preceded by `c`, the suffix from `k` is exactly `after_last`.
proof fn lemma_after_last_is_suffix(s: Seq<char>, c: char, k: int)
    requires
        0 <= k <= s.len(),
        forall|i: int| k <= i < s.len() ==> s[i] != c,
        k > 0 ==> s[k - 1] == c,
    ensures
        after_last(s, c) == s.subrange(k, s.len() as int),
    decreases s.len(),
{
    if s.len() == 0 {
        assert(after_last(s, c) =~= s.subrange(k, s.len() as int));
    } else if s.last() == c {
        assert(k == s.len());
        assert(after_last(s, c) =~= s.subrange(k, s.len() as int));
    } else {
        assert(k < s.len());
        lemma_after_last_is_suffix(s.drop_last(), c, k);
        assert(s.drop_last().subrange(k, s.len() - 1) =~= s.subrange(k, s.len() - 1));
        assert(after_last(s, c) =~= s.subrange(k, s.len() as int));
    }
}

/// `drop_from_last_dot` cuts exactly at the last dot: when `s[j]` is `.`
/// and nothing after it is, the result is the prefix before `j`.
proof fn lemma_drop_from_last_dot_cuts(s: Seq<char>, j: int)
    requires
        0 <= j < s.len(),
        s[j] == '.',
        forall|i: int| j < i < s.len() ==> s[i] != '.',
    ensures
        drop_from_last_dot(s) == s.subrange(0, j),
    decreases s.len(),
{
    if s.last() == '.' {
        assert(j == s.len() - 1);
        assert(drop_from_last_dot(s) =~= s.subrange(0, j));
    } else {
        assert(j < s.len() - 1);
        lemma_drop_from_last_dot_cuts(s.drop_last(), j);
        assert(s.drop_last().subrange(0, j) =~= s.subrange(0, j));
    }
}

/// Computes the stem of a path string: the base name, extension stripped.
pub fn stem_of_path(s: &str) -> (r: String)
    ensures
        r@ == stem_of(s@),
{
    let n = s.unicode_len();
    let mut start: usize = 0;
    let mut i: usize = 0;
    while i < n
        invariant
            i <= n,
            n == s@.len(),
            start <= i,
            forall|j: int| start <= j < i ==> s@[j] != '/',
            start > 0 ==> s@[start - 1] == '/',
        decreases n - i,
    {
        if s.get_char(i) == '/' {
            start = i + 1;
        }
        i += 1;
    }
    let mut dot: usize = n;
    let mut j: usize = start;
    while j < n
        invariant
            start <= j <= n,
            n == s@.len(),
            dot == n || (start <= dot && dot < j && s@[dot as int] == '.'),
            dot == n ==> forall|t: int| start <= t < j ==> s@[t] != '.',
            forall|t: int| dot < t < j ==> s@[t] != '.',
        decreases n - j,
    {
        if s.get_char(j) == '.' {
            dot = j;
        }
        j += 1;
    }
    let end = if dot < n && dot > start {
        dot
    } else {
        n
    };
    let sub = s.substring_char(start, end);
    proof {
        let base = s@.subrange(start as int, n as int);
        lemma_after_last_is_suffix(s@, '/', start as int);
        if dot < n && dot > start {
            assert(base[dot - start] == '.');
            assert(base.skip(1)[dot - start - 1] == base[dot - start]);
            assert(has_char(base.skip(1), '.'));
            assert forall|t: int| dot - start < t < base.len() implies base[t] != '.' by {
                assert(base[t] == s@[start + t]);
            }
            lemma_drop_from_last_dot_cuts(base, dot - start);
            assert(base.subrange(0, dot - start) =~= s@.subrange(start as int, dot as int));
        } else if base.len() == 0 {
            assert(drop_from_last_dot(base) =~= base);
            assert(stem_of(s@) == base);
        } else {
            assert forall|t: int| !(0 <= t < base.skip(1).len() && base.skip(1)[t] == '.') by {
                if 0 <= t < base.skip(1).len() {
                    assert(base.skip(1)[t] == base[t + 1]);
                    assert(base[t + 1] == s@[start + t + 1]);
                }
            }
            assert(!has_char(base.skip(1), '.'));
        }
    }
    String::from_str(sub)
}

/// The three well-known distribution font paths the fallback probes.
pub open spec fn dejavu_path() -> Seq<char> {
    "/usr/share/fonts/truetype/dejavu/DejaVuSans.ttf"@
}

pub open spec fn liberation_path() -> Seq<char> {
    "/usr/share/fonts/truetype/liberation/LiberationSans-Regular.ttf"@
}

pub open spec fn arial_path() -> Seq<char> {
    "/usr/share/fonts/TTF/Arial.ttf"@
}

/// The record a well-known path contributes: its stem as the name and the
/// path itself, but only when the file is present and the stem non-empty.
pub open spec fn well_known_records(path: Seq<char>, present: bool) -> Seq<FontInfoView> {
    if present && stem_of(path).len() > 0 {
        seq![FontInfoView { name: stem_of(path), path: path }]
    } else {
        Seq::empty()
    }
}

/// The records one query entry contributes: one record when both the
/// family and the file came back and the family is non-empty.
pub open spec fn entry_records(e: (Option<String>, Option<String>)) -> Seq<FontInfoView> {
    match e {
        (Option::Some(family), Option::Some(file)) => if family@.len() > 0 {
            seq![FontInfoView { name: family@, path: file@ }]
        } else {
            Seq::empty()
        },
        _ => Seq::empty(),
    }
}

/// The records of all query entries, in query order.
pub open spec fn query_records(entries: Seq<(Option<String>, Option<String>)>) -> Seq<FontInfoView>
    decreases entries.len(),
{
    if entries.len() == 0 {
        Seq::empty()
    } else {
        query_records(entries.drop_last()) + entry_records(entries.last())
    }
}

/// What the probe reports for the given query entries and for the given
/// presences of the well-known paths: the query's records, or, when the
/// query yields none, whichever well-known fonts are present.
pub open spec fn probe_records(
    entries: Seq<(Option<String>, Option<String>)>,
    dejavu: bool,
    liberation: bool,
    arial: bool,
) -> Seq<FontInfoView> {
    let q = query_records(entries);
    if q.len() == 0 {
        well_known_records(dejavu_path(), dejavu)
            + well_known_records(liberation_path(), liberation)
            + well_known_records(arial_path(), arial)
    } else {
        q
    }
}

/// The stem of the DejaVu path is the name `DejaVuSans`.
proof fn lemma_dejavu_stem()
    ensures
        stem_of(dejavu_path()) == "DejaVuSans"@,
{
    reveal_strlit("/usr/share/fonts/truetype/dejavu/DejaVuSans.ttf");
    reveal_strlit("DejaVuSans");
    let s = dejavu_path();
    assert(s.len() == 47);
    assert(s[32] == '/');
    assert(forall|i: int| 33 <= i < 47 ==> s[i] != '/');
    lemma_after_last_is_suffix(s, '/', 33);
    let base = s.subrange(33, 47);
    assert(base[10] == '.');
    assert(base.skip(1)[9] == base[10]);
    assert(has_char(base.skip(1), '.'));
    assert forall|t: int| 10 < t < 14 implies base[t] != '.' by {
        assert(base[t] == s[33 + t]);
    }
    lemma_drop_from_last_dot_cuts(base, 10);
    assert(base.subrange(0, 10) =~= "DejaVuSans"@);
}

/// With an empty query and the DejaVu font present on disk, the probe
/// reports exactly one record: the file's stem as its name, the file's
/// path as its path.
pub proof fn lemma_present_dejavu_record()
    ensures
        probe_records(Seq::empty(), true, false, false) == seq![
            FontInfoView { name: "DejaVuSans"@, path: dejavu_path() },
        ],
{
    lemma_dejavu_stem();
    reveal_strlit("DejaVuSans");
    assert(query_records(Seq::empty()) =~= Seq::<FontInfoView>::empty());
    assert(probe_records(Seq::empty(), true, false, false) =~= seq![
        FontInfoView { name: "DejaVuSans"@, path: dejavu_path() },
    ]);
}

/// Every record the query's entries yield is well formed.
proof fn lemma_query_records_wf(entries: Seq<(Option<String>, Option<String>)>)
    ensures
        all_wf(query_records(entries)),
    decreases entries.len(),
{
    if entries.len() > 0 {
        lemma_query_records_wf(entries.drop_last());
    }
}

/// Appends the record of one well-known path, when it is present on disk
/// and its stem is non-empty.
fn push_well_known(out: &mut Vec<FontInfo>, path: &str, present: bool)
    ensures
        views(final(out)@) == views(old(out)@) + well_known_records(path@, present),
{
    let mut pushed = false;
    if present {
        let name = stem_of_path(path);
        if !name.as_str().is_empty() {
            let rec = FontInfo { name, path: String::from_str(path) };
            proof {
                assert(views(out@.push(rec)) =~= views(out@).push(rec@));
            }
            out.push(rec);
            pushed = true;
        }
    }
    proof {
        if !pushed {
            assert(views(out@) =~= views(out@) + well_known_records(path@, present));
        } else {
            assert(views(out@) =~= views(old(out)@) + well_known_records(path@, present));
        }
    }
}

/// Builds the probe's records from the query's entries and from which of
/// the well-known paths exist on disk.  An empty query with none of the
/// paths present gives an empty list, not a failure.
pub fn fontconfig_records(
    entries: &Vec<(Option<String>, Option<String>)>,
    dejavu: bool,
    liberation: bool,
    arial: bool,
) -> (out: Vec<FontInfo>)
    ensures
        views(out@) == probe_records(entries@, dejavu, liberation, arial),
        all_wf(views(out@)),
{
    let mut out: Vec<FontInfo> = Vec::new();
    let mut i: usize = 0;
    while i < entries.len()
        invariant
            i <= entries@.len(),
            views(out@) == query_records(entries@.take(i as int)),
        decreases entries@.len() - i,
    {
        let ghost prefix = entries@.take(i as int);
        match (&entries[i].0, &entries[i].1) {
            (Option::Some(family), Option::Some(file)) => {
                if !family.as_str().is_empty() {
                    let rec = FontInfo { name: family.clone(), path: file.clone() };
                    proof {
                        assert(views(out@.push(rec)) =~= views(out@).push(rec@));
                    }
                    out.push(rec);
                }
            },
            _ => {},
        }
        proof {
            assert(entries@.take(i + 1).drop_last() =~= prefix);
            assert(entries@.take(i + 1).last() == entries@[i as int]);
            assert(views(out@) =~= query_records(entries@.take(i + 1)));
        }
        i += 1;
    }
    proof {
        assert(entries@.take(entries@.len() as int) =~= entries@);
    }
    if out.len() == 0 {
        let ghost empty_query = views(out@);
        push_well_known(&mut out, "/usr/share/fonts/truetype/dejavu/DejaVuSans.ttf", dejavu);
        push_well_known(&mut out, "/usr/share/fonts/truetype/liberation/LiberationSans-Regular.ttf", liberation);
        push_well_known(&mut out, "/usr/share/fonts/TTF/Arial.ttf", arial);
        proof {
            assert(views(out@) =~= probe_records(entries@, dejavu, liberation, arial));
        }
    }
    proof {
        lemma_query_records_wf(entries@);
    }
    out
}

/// Relies on the fontconfig crate — `Fontconfig::new`, `Pattern::new`,
/// `ObjectSet::new` and `add`, `list_fonts`, and `Pattern::get_string` on
/// the same two properties the object set requests, family and file — for
/// one match-all query, handed back as one pair of optional strings per
/// returned pattern.  `None` when the service cannot be initialized or the
/// query cannot be made.
#[verifier::external_body]
fn fontconfig_query() -> (r: Option<Vec<(Option<String>, Option<String>)>>) {
    let fc = fontconfig::Fontconfig::new()?;
    let pattern = fontconfig::Pattern::new(&fc).ok()?;
    let mut objects = fontconfig::ObjectSet::new(&fc).ok()?;
    objects.add(fontconfig::FC_FAMILY).ok()?;
    objects.add(fontconfig::FC_FILE).ok()?;
    let set = fontconfig::list_fonts(&pattern, Some(&objects)).ok()?;
    let mut out = Vec::new();
    for p in set.iter() {
        let family = p.get_string(fontconfig::FC_FAMILY).ok().map(|s| s.to_string());
        let file = p.get_string(fontconfig::FC_FILE).ok().map(|s| s.to_string());
        out.push((family, file));
    }
    Some(out)
}

/// Relies on std's `Path::exists`: whether the path names something that
/// exists on this machine's disk right now.
#[verifier::external_body]
fn path_exists(path: &str) -> bool {
    std::path::Path::new(path).exists()
}

/// The Linux platform probe.  Queries fontconfig for every font's family
/// and file; when the query yields nothing, falls back to the fixed list
/// of well-known distribution fonts, reporting those present on disk.
/// `None` means the service was unavailable, never that no fonts exist.
pub fn get_fontconfig_fonts() -> (r: Option<Vec<FontInfo>>)
    ensures
        r matches Option::Some(v) ==> all_wf(views(v@)),
{
    match fontconfig_query() {
        Option::Some(entries) => {
            let dejavu = path_exists("/usr/share/fonts/truetype/dejavu/DejaVuSans.ttf");
            let liberation = path_exists(
                "/usr/share/fonts/truetype/liberation/LiberationSans-Regular.ttf",
            );
            let arial = path_exists("/usr/share/fonts/TTF/Arial.ttf");
            Option::Some(fontconfig_records(&entries, dejavu, liberation, arial))
        },
        Option::None => Option::None,
    }
}

} // verus!

