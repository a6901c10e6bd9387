//! Directory listings.
//!
//! A listing call hands back the entries of one remote directory in whatever
//! order the server returned them, except the self (`.`) and parent (`..`)
//! pseudo-entries, which are never reported. An entry whose name could not be
//! decoded as text is reported under the empty name rather than failing the
//! whole listing.

use vstd::prelude::*;
use vstd::string::StringExecFns;

verus! {

/// One directory entry as the transport layer hands it over: the name where
/// it decoded as text, the directory flag, and the size where the server
/// reported one.
pub struct RawEntry {
    /// `None` when the raw name was not valid text.
    pub name: Option<String>,
    pub is_dir: bool,
    pub size: Option<u64>,
}

/// One entry of a directory listing as reported to the caller.
pub struct FileInfo {
    pub name: String,
    pub is_dir: bool,
    pub size: Option<u64>,
}

/// The mathematical value of a reported entry.
pub struct EntryModel {
    pub name: Seq<char>,
    pub is_dir: bool,
    pub size: Option<u64>,
}

impl View for FileInfo {
    type V = EntryModel;

    open spec fn view(&self) -> EntryModel {
        EntryModel { name: self.name@, is_dir: self.is_dir, size: self.size }
    }
}

impl View for RawEntry {
    type V = EntryModel;

    open spec fn view(&self) -> EntryModel {
        EntryModel {
            name: match self.name {
                Option::Some(n) => n@,
                Option::None => Seq::empty(),
            },
            is_dir: self.is_dir,
            size: self.size,
        }
    }
}

/// Whether `name` is one of the two pseudo-entries (`.` and `..`) that a
/// listing never reports.
pub open spec fn is_pseudo(name: Seq<char>) -> bool {
    name == "."@ || name == ".."@
}

/// The listing reported for the raw entries `raw`: every entry in order,
/// except the pseudo-entries.
pub open spec fn listed(raw: Seq<EntryModel>) -> Seq<EntryModel>
    decreases raw.len(),
{
    if raw.len() == 0 {
        Seq::empty()
    } else if is_pseudo(raw.last().name) {
        listed(raw.drop_last())
    } else {
        listed(raw.drop_last()).push(raw.last())
    }
}

/// No reported entry is a pseudo-entry.
pub proof fn lemma_listed_no_pseudo(raw: Seq<EntryModel>)
    ensures
        forall|i: int| 0 <= i < listed(raw).len() ==> !is_pseudo(#[trigger] listed(raw)[i].name),
    decreases raw.len(),
{
    if raw.len() > 0 {
        lemma_listed_no_pseudo(raw.drop_last());
    }
}

/// A reported entry comes from a raw entry: `listed` keeps a (sub)sequence of
/// its input.
pub proof fn lemma_listed_from_raw(raw: Seq<EntryModel>)
    ensures
        forall|i: int| 0 <= i < listed(raw).len() ==> raw.contains(#[trigger] listed(raw)[i]),
        listed(raw).len() <= raw.len(),
    decreases raw.len(),
{
    if raw.len() > 0 {
        lemma_listed_from_raw(raw.drop_last());
        assert forall|i: int| 0 <= i < listed(raw).len() implies raw.contains(
            #[trigger] listed(raw)[i],
        ) by {
            if i < listed(raw.drop_last()).len() {
                let j = choose|j: int|
                    0 <= j < raw.drop_last().len() && raw.drop_last()[j] == listed(raw)[i];
                assert(raw[j] == listed(raw)[i]);
            } else {
                assert(raw[raw.len() - 1] == listed(raw)[i]);
            }
        }
    }
}

/// The models of a sequence of raw entries.
pub open spec fn raw_models(raw: Seq<RawEntry>) -> Seq<EntryModel> {
    raw.map_values(|e: RawEntry| e@)
}

/// The models of a sequence of reported entries.
pub open spec fn info_models(infos: Seq<FileInfo>) -> Seq<EntryModel> {
    infos.map_values(|f: FileInfo| f@)
}

/// Build the listing reported to the caller from the raw entries of one
/// remote directory read: drop `.` and `..`, keep server order, and report an
/// undecodable name as the empty name.
pub fn collect_entries(raw: Vec<RawEntry>) -> (r: Vec<FileInfo>)
    ensures
        info_models(r@) == listed(raw_models(raw@)),
        forall|i: int| 0 <= i < r@.len() ==> !is_pseudo(#[trigger] r@[i]@.name),
{
    let dot = String::from_str(".");
    let dotdot = String::from_str("..");
    let mut r: Vec<FileInfo> = Vec::new();
    let mut i: usize = 0;
    while i < raw.len()
        invariant
            i <= raw@.len(),
            dot@ == "."@,
            dotdot@ == ".."@,
            info_models(r@) == listed(raw_models(raw@).subrange(0, i as int)),
        decreases raw@.len() - i,
    {
        let entry = &raw[i];
        let name: String = match &entry.name {
            Option::Some(n) => n.clone(),
            Option::None => String::new(),
        };
        proof {
            assert(raw_models(raw@).subrange(0, i + 1).drop_last() =~= raw_models(
                raw@,
            ).subrange(0, i as int));
            assert(raw_models(raw@).subrange(0, i + 1).last() == raw@[i as int]@);
            assert(name@ == raw@[i as int]@.name);
        }
        if !(name == dot || name == dotdot) {
            let info = FileInfo { name, is_dir: entry.is_dir, size: entry.size };
            proof {
                assert(info@ == raw@[i as int]@);
            }
            r.push(info);
            proof {
                assert(info_models(r@) =~= listed(raw_models(raw@).subrange(0, i + 1)));
            }
        }
        i = i + 1;
    }
    proof {
        assert(raw_models(raw@).subrange(0, raw@.len() as int) =~= raw_models(raw@));
        lemma_listed_no_pseudo(raw_models(raw@));
        assert forall|i: int| 0 <= i < r@.len() implies !is_pseudo(#[trigger] r@[i]@.name) by {
            assert(info_models(r@)[i] == r@[i]@);
        }
    }
    r
}

} // verus!
