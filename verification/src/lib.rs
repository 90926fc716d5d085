//! Enumeration of the fonts installed on the host system.
//!
//! The library reports one record per font family: the family's name and,
//! where it can be resolved, the path of a font file for it.  A
//! cross-platform discovery source is asked first; when it cannot enumerate
//! families at all, a platform probe takes over.  Every failure along the
//! way degrades to fewer records, never to an error.

use vstd::prelude::*;
use vstd::string::StrSliceExecFns;

pub mod linux;
pub mod macos;
pub mod windows;

verus! {

/// One enumerated font: a family name and the path of a font file.
///
/// An empty `path` means the font is resident in memory, or its location
/// could not be resolved.  A record is only ever produced with a non-empty
/// `name`.
#[derive(Debug, Clone)]
pub struct FontInfo {
    pub name: String,
    pub path: String,
}

/// The mathematical value of a [`FontInfo`]: both fields as character
/// sequences.
pub struct FontInfoView {
    pub name: Seq<char>,
    pub path: Seq<char>,
}

impl View for FontInfo {
    type V = FontInfoView;

    open spec fn view(&self) -> FontInfoView {
        FontInfoView { name: self.name@, path: self.path@ }
    }
}

/// A record is well formed when its name is non-empty.
pub open spec fn record_wf(r: FontInfoView) -> bool {
    r.name.len() > 0
}

/// Every record of the sequence is well formed.
pub open spec fn all_wf(rs: Seq<FontInfoView>) -> bool {
    forall|i: int| 0 <= i < rs.len() ==> record_wf(#[trigger] rs[i])
}

/// The views of a sequence of records.
pub open spec fn views(rs: Seq<FontInfo>) -> Seq<FontInfoView> {
    rs.map_values(|r: FontInfo| r@)
}

/// The family names of a sequence of records, in order.
pub open spec fn names_of(rs: Seq<FontInfoView>) -> Seq<Seq<char>> {
    rs.map_values(|r: FontInfoView| r.name)
}

/// Whether `c` occurs in `s`.
pub open spec fn has_char(s: Seq<char>, c: char) -> bool {
    exists|i: int| 0 <= i < s.len() && s[i] == c
}

/// Whether the string holds a NUL character.
fn contains_nul(s: &str) -> (r: bool)
    ensures
        r == has_char(s@, '\0'),
{
    let n = s.unicode_len();
    let mut i: usize = 0;
    while i < n
        invariant
            i <= n,
            n == s@.len(),
            forall|j: int| 0 <= j < i ==> s@[j] != '\0',
        decreases n - i,
    {
        if s.get_char(i) == '\0' {
            return true;
        }
        i += 1;
    }
    false
}

/// A resolved font resource: either a file on disk or bytes in memory.
#[derive(Debug, Clone)]
pub enum FontHandle {
    FilePath(String),
    InMemory(Vec<u8>),
}

/// The path a handle contributes to a record: the file path for an on-disk
/// font, the empty string for an in-memory one.
pub open spec fn handle_path(h: FontHandle) -> Seq<char> {
    match h {
        FontHandle::FilePath(p) => p@,
        FontHandle::InMemory(_) => Seq::empty(),
    }
}

/// Builds the record for one family from its resolved handle.
pub fn record_from_handle(name: &String, handle: &FontHandle) -> (r: FontInfo)
    ensures
        r@ == (FontInfoView { name: name@, path: handle_path(*handle) }),
{
    match handle {
        FontHandle::FilePath(p) => FontInfo { name: name.clone(), path: p.clone() },
        FontHandle::InMemory(_) => FontInfo { name: name.clone(), path: String::new() },
    }
}

/// One family as the discovery source answered for it: the family's name,
/// and the handle its best match resolved to, if resolution succeeded.
#[derive(Debug, Clone)]
pub struct FamilyResolution {
    pub family: String,
    pub handle: Option<FontHandle>,
}

/// The records one answered family contributes: a single record when a
/// handle was resolved and the name is non-empty, nothing otherwise.
pub open spec fn family_records(r: FamilyResolution) -> Seq<FontInfoView> {
    match r.handle {
        Option::Some(h) => if r.family@.len() > 0 {
            seq![FontInfoView { name: r.family@, path: handle_path(h) }]
        } else {
            Seq::empty()
        },
        Option::None => Seq::empty(),
    }
}

/// The records the discovery source's answers yield, family by family, in
/// the order the source reported them.
pub open spec fn source_records(rs: Seq<FamilyResolution>) -> Seq<FontInfoView>
    decreases rs.len(),
{
    if rs.len() == 0 {
        Seq::empty()
    } else {
        source_records(rs.drop_last()) + family_records(rs.last())
    }
}

/// The records one answered family contributes are all well formed.
proof fn lemma_family_records_wf(r: FamilyResolution)
    ensures
        all_wf(family_records(r)),
{
}

/// Every returned record carries a non-empty family name.
pub proof fn lemma_source_records_wf(rs: Seq<FamilyResolution>)
    ensures
        all_wf(source_records(rs)),
    decreases rs.len(),
{
    if rs.len() > 0 {
        lemma_source_records_wf(rs.drop_last());
        lemma_family_records_wf(rs.last());
    }
}

/// A family whose resolution failed is dropped, and only it: the records of
/// the remaining families are exactly those of a run that never saw it.
pub proof fn lemma_failed_family_drops_only_itself(rs: Seq<FamilyResolution>, k: int)
    requires
        0 <= k < rs.len(),
        rs[k].handle is None,
    ensures
        source_records(rs) == source_records(rs.remove(k)),
    decreases rs.len(),
{
    if k == rs.len() - 1 {
        assert(rs.remove(k) =~= rs.drop_last());
        assert(source_records(rs) =~= source_records(rs.drop_last()));
    } else {
        lemma_failed_family_drops_only_itself(rs.drop_last(), k);
        assert(rs.remove(k).drop_last() =~= rs.drop_last().remove(k));
        assert(rs.remove(k).last() == rs.last());
        assert(source_records(rs.remove(k)) =~= source_records(rs));
    }
}

/// Two enumerations of an unchanged system agree on the names reported:
/// when both runs see the same families and the same resolutions succeed,
/// the family names come out identical, whatever the resolved handles hold.
pub proof fn lemma_names_depend_only_on_families(rs1: Seq<FamilyResolution>, rs2: Seq<FamilyResolution>)
    requires
        rs1.len() == rs2.len(),
        forall|i: int| 0 <= i < rs1.len() ==> (#[trigger] rs1[i]).family@ == (#[trigger] rs2[i]).family@,
        forall|i: int| 0 <= i < rs1.len() ==> ((#[trigger] rs1[i]).handle is Some <==> (#[trigger] rs2[i]).handle is Some),
    ensures
        names_of(source_records(rs1)) == names_of(source_records(rs2)),
    decreases rs1.len(),
{
    if rs1.len() > 0 {
        lemma_names_depend_only_on_families(rs1.drop_last(), rs2.drop_last());
        assert(names_of(source_records(rs1.drop_last()) + family_records(rs1.last()))
            =~= names_of(source_records(rs1.drop_last())) + names_of(family_records(rs1.last())));
        assert(names_of(source_records(rs2.drop_last()) + family_records(rs2.last()))
            =~= names_of(source_records(rs2.drop_last())) + names_of(family_records(rs2.last())));
        assert(rs1.last() == rs1[rs1.len() - 1]);
        assert(names_of(family_records(rs1.last())) =~= names_of(family_records(rs2.last())));
        assert(names_of(source_records(rs1)) =~= names_of(source_records(rs2)));
    }
}

/// Turns the source's answers into records: one record per family whose
/// resolution succeeded and whose name is non-empty, in source order.
pub fn collect_source_records(rs: &Vec<FamilyResolution>) -> (out: Vec<FontInfo>)
    ensures
        views(out@) == source_records(rs@),
        all_wf(views(out@)),
{
    let mut out: Vec<FontInfo> = Vec::new();
    let mut i: usize = 0;
    while i < rs.len()
        invariant
            i <= rs@.len(),
            views(out@) == source_records(rs@.take(i as int)),
        decreases rs@.len() - i,
    {
        let ghost prefix = rs@.take(i as int);
        match &rs[i].handle {
            Option::Some(h) => {
                if !rs[i].family.as_str().is_empty() {
                    let rec = record_from_handle(&rs[i].family, h);
                    proof {
                        assert(views(out@.push(rec)) =~= views(out@).push(rec@));
                    }
                    out.push(rec);
                }
            },
            Option::None => {},
        }
        proof {
            assert(rs@.take(i + 1).drop_last() =~= prefix);
            assert(rs@.take(i + 1).last() == rs@[i as int]);
            assert(views(out@) =~= source_records(rs@.take(i + 1)));
        }
        i += 1;
    }
    proof {
        assert(rs@.take(rs@.len() as int) =~= rs@);
        lemma_source_records_wf(rs@);
    }
    out
}

/// How the orchestrator merges its two strategies: the source's records
/// when the source could enumerate, else whatever the platform probe found,
/// else nothing.
pub open spec fn orchestrated(primary: Option<Seq<FontInfoView>>, fallback: Option<Seq<FontInfoView>>) -> Seq<FontInfoView> {
    match primary {
        Option::Some(p) => p,
        Option::None => match fallback {
            Option::Some(f) => f,
            Option::None => Seq::empty(),
        },
    }
}

/// When the source cannot enumerate families at all, the result is exactly
/// the platform probe's output, with no contribution from the source: an
/// empty run of answers contributes no records.
pub proof fn lemma_unavailable_source_yields_fallback(fallback: Seq<FontInfoView>)
    ensures
        orchestrated(Option::None, Option::Some(fallback)) == fallback,
        source_records(Seq::empty()) == Seq::<FontInfoView>::empty(),
{
}

/// The views of an optional record list.
pub open spec fn opt_views(o: Option<Vec<FontInfo>>) -> Option<Seq<FontInfoView>> {
    match o {
        Option::Some(v) => Option::Some(views(v@)),
        Option::None => Option::None,
    }
}

/// Merges the primary source's result with the platform probe's.
pub fn orchestrate(primary: Option<Vec<FontInfo>>, fallback: Option<Vec<FontInfo>>) -> (out: Vec<FontInfo>)
    ensures
        views(out@) == orchestrated(opt_views(primary), opt_views(fallback)),
{
    match primary {
        Option::Some(p) => p,
        Option::None => match fallback {
            Option::Some(f) => f,
            Option::None => Vec::new(),
        },
    }
}

/// The cross-platform discovery source of the font_kit crate, opaque here:
/// it is only handed back to its own methods.
#[verifier::external_type_specification]
#[verifier::external_body]
pub struct ExSystemSource(font_kit::source::SystemSource);

/// Relies on font_kit's `SystemSource::new`: opens the system's font
/// discovery source.
#[verifier::external_body]
fn new_system_source() -> font_kit::source::SystemSource {
    font_kit::source::SystemSource::new()
}

/// Relies on font_kit's `SystemSource::all_families`: the names of all
/// installed font families, or `None` when the source cannot enumerate at
/// all (font_kit reports a fontless system as such a failure).
#[verifier::external_body]
fn all_families_of(source: &font_kit::source::SystemSource) -> (r: Option<Vec<String>>) {
    source.all_families().ok()
}

/// Relies on font_kit's `SystemSource::select_best_match`: the best
/// matching handle for the family under default properties, `None` when
/// resolution fails.  A family name holding a NUL character is excluded:
/// font_kit builds a C string from the name and would panic on it.  One
/// environment-dependent risk remains and cannot be excluded by any
/// condition on the arguments: font_kit unwraps each matched font's file
/// path internally, so a system font whose path is not valid UTF-8 panics
/// inside the call — an accepted risk of the backend itself.
#[verifier::external_body]
fn best_match_of(source: &font_kit::source::SystemSource, family: &String) -> (r: Option<
    FontHandle,
>)
    requires
        !has_char(family@, '\0'),
{
    let names = [font_kit::family_name::FamilyName::Title(family.clone())];
    match source.select_best_match(&names, &font_kit::properties::Properties::new()) {
        Ok(font_kit::handle::Handle::Path { path, .. }) => Some(
            FontHandle::FilePath(path.to_string_lossy().to_string()),
        ),
        Ok(font_kit::handle::Handle::Memory { bytes, .. }) => Some(
            FontHandle::InMemory((*bytes).clone()),
        ),
        Err(_) => None,
    }
}

/// Asks the discovery source for every family and resolves each in turn.
/// `None` when the source cannot enumerate families at all.  A family
/// whose resolution fails is skipped silently; the others still come back.
/// A family name holding a NUL character is never handed to the source —
/// it is treated as unresolved, so it too is skipped.
pub fn enumerate_primary() -> (r: Option<Vec<FontInfo>>)
    ensures
        r matches Option::Some(v) ==> all_wf(views(v@)),
{
    let source = new_system_source();
    match all_families_of(&source) {
        Option::Some(families) => {
            let mut resolutions: Vec<FamilyResolution> = Vec::new();
            let mut i: usize = 0;
            while i < families.len()
                invariant
                    i <= families@.len(),
                decreases families@.len() - i,
            {
                let handle = if contains_nul(families[i].as_str()) {
                    Option::None
                } else {
                    best_match_of(&source, &families[i])
                };
                resolutions.push(FamilyResolution { family: families[i].clone(), handle });
                i += 1;
            }
            Option::Some(collect_source_records(&resolutions))
        },
        Option::None => Option::None,
    }
}

/// Enumerates the installed fonts: the discovery source first; the
/// platform probe when the source is unavailable.  Always returns a list,
/// possibly empty, and every record's name is non-empty.
pub fn get_system_fonts() -> (r: Vec<FontInfo>)
    ensures
        all_wf(views(r@)),
{
    let primary = enumerate_primary();
    let fallback = if primary.is_none() {
        linux::get_fontconfig_fonts()
    } else {
        Option::None
    };
    orchestrate(primary, fallback)
}

} // verus!
