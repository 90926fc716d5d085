//! Windows probe: records from the font layout service's family names.
//!
//! The native calls themselves can only be made on a Windows host; the
//! probe here is the verified half, working on the decoded family names.
//! No real file lookup is performed: the path is synthesized from a fixed
//! directory prefix, the family name, and a fixed extension — a documented
//! approximation, not verified to exist on disk.

use vstd::prelude::*;
use vstd::string::StringExecFns;
use crate::FontInfo;
use crate::FontInfoView;
use crate::all_wf;
use crate::views;

verus! {

/// The synthesized path for a family: the fonts directory, the family
/// name, and the font-file extension, concatenated verbatim.
pub open spec fn synthesized_path(name: Seq<char>) -> Seq<char> {
    "C:\\Windows\\Fonts\\"@ + name + ".ttf"@
}

/// The records one family-name entry contributes: a single record with the
/// synthesized path when the name was decoded and is non-empty, nothing
/// otherwise — an entry whose name could not be decoded is skipped.
pub open spec fn name_records(e: Option<String>) -> Seq<FontInfoView> {
    match e {
        Option::Some(name) => if name@.len() > 0 {
            seq![FontInfoView { name: name@, path: synthesized_path(name@) }]
        } else {
            Seq::empty()
        },
        Option::None => Seq::empty(),
    }
}

/// The records of all decoded family names, in collection order.
pub open spec fn family_name_records(names: Seq<Option<String>>) -> Seq<FontInfoView>
    decreases names.len(),
{
    if names.len() == 0 {
        Seq::empty()
    } else {
        family_name_records(names.drop_last()) + name_records(names.last())
    }
}

/// Every record a list of decoded names yields is well formed.
pub proof fn lemma_family_name_records_wf(names: Seq<Option<String>>)
    ensures
        all_wf(family_name_records(names)),
    decreases names.len(),
{
    if names.len() > 0 {
        lemma_family_name_records_wf(names.drop_last());
    }
}

/// Builds the synthesized path for a family name.
pub fn synthesize_path(name: &String) -> (r: String)
    ensures
        r@ == synthesized_path(name@),
{
    String::from_str("C:\\Windows\\Fonts\\").concat(name.as_str()).concat(".ttf")
}

/// Turns the decoded family names into records, in order.
pub fn collect_family_name_records(names: &Vec<Option<String>>) -> (out: Vec<FontInfo>)
    ensures
        views(out@) == family_name_records(names@),
        all_wf(views(out@)),
{
    let mut out: Vec<FontInfo> = Vec::new();
    let mut i: usize = 0;
    while i < names.len()
        invariant
            i <= names@.len(),
            views(out@) == family_name_records(names@.take(i as int)),
        decreases names@.len() - i,
    {
        let ghost prefix = names@.take(i as int);
        match &names[i] {
            Option::Some(name) => {
                if !name.as_str().is_empty() {
                    let path = synthesize_path(name);
                    let rec = FontInfo { name: name.clone(), path };
                    proof {
                        assert(views(out@.push(rec)) =~= views(out@).push(rec@));
                    }
                    out.push(rec);
                }
            },
            Option::None => {},
        }
        proof {
            assert(names@.take(i + 1).drop_last() =~= prefix);
            assert(names@.take(i + 1).last() == names@[i as int]);
            assert(views(out@) =~= family_name_records(names@.take(i + 1)));
        }
        i += 1;
    }
    proof {
        assert(names@.take(names@.len() as int) =~= names@);
        lemma_family_name_records_wf(names@);
    }
    out
}

/// The Windows platform probe's verified half.  `names` is what was read
/// from the font layout service: `None` when the factory or the system
/// collection could not be obtained at all, else one entry per family,
/// `None` inside for a family whose name could not be read or decoded.
pub fn get_directwrite_fonts(names: Option<Vec<Option<String>>>) -> (r: Option<Vec<FontInfo>>)
    ensures
        r is Some <==> names is Some,
        names matches Option::Some(ns) ==> r matches Option::Some(v) && views(v@)
            == family_name_records(ns@) && all_wf(views(v@)),
{
    match names {
        Option::Some(ns) => Option::Some(collect_family_name_records(&ns)),
        Option::None => Option::None,
    }
}

} // verus!
