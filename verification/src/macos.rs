//! macOS probe: records from the native font collection's descriptors.
//!
//! The native calls themselves can only be made on a macOS host; the probe
//! here is the verified half, working on the plain values read from each
//! descriptor: the family name, and the descriptor's URL resolved to a
//! filesystem path when it has one.

use vstd::prelude::*;
use crate::FontInfo;
use crate::FontInfoView;
use crate::all_wf;
use crate::views;

verus! {

/// What one native font descriptor yields once read: the family name of a
/// font built from it, and the descriptor's URL as a filesystem path, when
/// the URL attribute is present and convertible.
#[derive(Debug, Clone)]
pub struct FontDescriptorInfo {
    pub family: String,
    pub path: Option<String>,
}

/// The records one descriptor contributes: a single record when it has a
/// non-empty resolvable path and a non-empty family name, nothing
/// otherwise — a descriptor without a resolved path is skipped entirely,
/// never reported with an empty path.
pub open spec fn descriptor_records(d: FontDescriptorInfo) -> Seq<FontInfoView> {
    match d.path {
        Option::Some(p) => if d.family@.len() > 0 && p@.len() > 0 {
            seq![FontInfoView { name: d.family@, path: p@ }]
        } else {
            Seq::empty()
        },
        Option::None => Seq::empty(),
    }
}

/// The records of all descriptors, in collection order.
pub open spec fn collection_records(ds: Seq<FontDescriptorInfo>) -> Seq<FontInfoView>
    decreases ds.len(),
{
    if ds.len() == 0 {
        Seq::empty()
    } else {
        collection_records(ds.drop_last()) + descriptor_records(ds.last())
    }
}

/// Every record a descriptor list yields is well formed.
pub proof fn lemma_collection_records_wf(ds: Seq<FontDescriptorInfo>)
    ensures
        all_wf(collection_records(ds)),
    decreases ds.len(),
{
    if ds.len() > 0 {
        lemma_collection_records_wf(ds.drop_last());
    }
}

/// Every record of the sequence carries a non-empty path.
pub open spec fn all_paths_nonempty(rs: Seq<FontInfoView>) -> bool {
    forall|i: int| 0 <= i < rs.len() ==> (#[trigger] rs[i]).path.len() > 0
}

/// No record a descriptor list yields carries an empty path: unlike the
/// discovery source's in-memory case, this probe reports a font only when
/// its path was confirmed at production time.
pub proof fn lemma_collection_records_paths_nonempty(ds: Seq<FontDescriptorInfo>)
    ensures
        all_paths_nonempty(collection_records(ds)),
    decreases ds.len(),
{
    if ds.len() > 0 {
        lemma_collection_records_paths_nonempty(ds.drop_last());
    }
}

/// A descriptor whose URL attribute cannot be resolved contributes zero
/// records: the collection reads exactly as one that never held it.
pub proof fn lemma_descriptor_without_path_contributes_nothing(ds: Seq<FontDescriptorInfo>, k: int)
    requires
        0 <= k < ds.len(),
        ds[k].path is None,
    ensures
        collection_records(ds) == collection_records(ds.remove(k)),
    decreases ds.len(),
{
    if k == ds.len() - 1 {
        assert(ds.remove(k) =~= ds.drop_last());
        assert(collection_records(ds) =~= collection_records(ds.drop_last()));
    } else {
        lemma_descriptor_without_path_contributes_nothing(ds.drop_last(), k);
        assert(ds.remove(k).drop_last() =~= ds.drop_last().remove(k));
        assert(ds.remove(k).last() == ds.last());
        assert(collection_records(ds.remove(k)) =~= collection_records(ds));
    }
}

/// Turns the descriptors' values into records, in order.
pub fn collect_descriptor_records(ds: &Vec<FontDescriptorInfo>) -> (out: Vec<FontInfo>)
    ensures
        views(out@) == collection_records(ds@),
        all_wf(views(out@)),
        all_paths_nonempty(views(out@)),
{
    let mut out: Vec<FontInfo> = Vec::new();
    let mut i: usize = 0;
    while i < ds.len()
        invariant
            i <= ds@.len(),
            views(out@) == collection_records(ds@.take(i as int)),
        decreases ds@.len() - i,
    {
        let ghost prefix = ds@.take(i as int);
        match &ds[i].path {
            Option::Some(p) => {
                if !ds[i].family.as_str().is_empty() && !p.as_str().is_empty() {
                    let rec = FontInfo { name: ds[i].family.clone(), path: p.clone() };
                    proof {
                        assert(views(out@.push(rec)) =~= views(out@).push(rec@));
                    }
                    out.push(rec);
                }
            },
            Option::None => {},
        }
        proof {
            assert(ds@.take(i + 1).drop_last() =~= prefix);
            assert(ds@.take(i + 1).last() == ds@[i as int]);
            assert(views(out@) =~= collection_records(ds@.take(i + 1)));
        }
        i += 1;
    }
    proof {
        assert(ds@.take(ds@.len() as int) =~= ds@);
        lemma_collection_records_wf(ds@);
        lemma_collection_records_paths_nonempty(ds@);
    }
    out
}

/// The macOS platform probe's verified half.  `descriptors` is what was
/// read from the native font collection: `None` when the collection
/// exposes no descriptor list at all, else one entry per descriptor.
pub fn get_core_text_fonts(descriptors: Option<Vec<FontDescriptorInfo>>) -> (r: Option<
    Vec<FontInfo>,
>)
    ensures
        r is Some <==> descriptors is Some,
        descriptors matches Option::Some(ds) ==> r matches Option::Some(v) && views(v@)
            == collection_records(ds@) && all_wf(views(v@)) && all_paths_nonempty(views(v@)),
{
    match descriptors {
        Option::Some(ds) => Option::Some(collect_descriptor_records(&ds)),
        Option::None => Option::None,
    }
}

} // verus!
