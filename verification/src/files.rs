//! Directory listings.

use crate::order::{is_arrangement, is_stably_sorted, keys_of, sort_order};
use crate::text::{chars_of, owned};
use vstd::prelude::*;
use vstd::string::*;

verus! {

#[derive(Clone, Debug, PartialEq, Eq)]
pub struct FileEntry {
    pub name: String,
    pub path: String,
    pub is_dir: bool,
}

pub struct FileModel {
    pub name: Seq<char>,
    pub path: Seq<char>,
    pub is_dir: bool,
}

impl View for FileEntry {
    type V = FileModel;

    open spec fn view(&self) -> FileModel {
        FileModel { name: self.name@, path: self.path@, is_dir: self.is_dir }
    }
}

pub open spec fn file_models(list: Seq<FileEntry>) -> Seq<FileModel> {
    Seq::new(list.len(), |i: int| list[i]@)
}

/// The lowercase form of a text, as Unicode defines it.
pub uninterp spec fn lowercase(text: Seq<char>) -> Seq<char>;

/// `str::to_lowercase` of the standard library gives the lowercase
/// equivalent of the text as a new string, by the Unicode property
/// `Lowercase`; the result depends on the text alone.
#[verifier::external_body]
fn to_lowercase(text: &str) -> (lower: String)
    ensures
        lower@ == lowercase(text@),
{
    text.to_lowercase()
}

/// The directory that is listed where none is named.
pub open spec fn target_of(path: Option<Seq<char>>) -> Seq<char> {
    match path {
        Some(path) => if path.len() > 0 {
            path
        } else {
            "."@
        },
        None => "."@,
    }
}

pub fn target_path(path: Option<&str>) -> (target: String)
    ensures
        target@ == target_of(
            match path {
                Some(path) => Some(path@),
                None => None,
            },
        ),
{
    match path {
        Some(path) => if path.is_empty() {
            owned(".")
        } else {
            owned(path)
        },
        None => owned("."),
    }
}

/// Whether an entry is hidden: its name begins with a dot.
pub open spec fn is_hidden(name: Seq<char>) -> bool {
    name.len() > 0 && name[0] == '.'
}

/// The entries that are shown: those that are not hidden, in their
/// order.
pub open spec fn shown(entries: Seq<FileModel>) -> Seq<FileModel>
    decreases entries.len(),
{
    if entries.len() == 0 {
        Seq::empty()
    } else if is_hidden(entries.last().name) {
        shown(entries.drop_last())
    } else {
        shown(entries.drop_last()).push(entries.last())
    }
}

/// The key by which an entry is sorted: directories before files, and
/// within both by the lowercase name.
pub open spec fn entry_key(entry: FileModel) -> Seq<char> {
    if entry.is_dir {
        seq!['0'] + lowercase(entry.name)
    } else {
        seq!['1'] + lowercase(entry.name)
    }
}

pub open spec fn entry_keys(entries: Seq<FileModel>) -> Seq<Seq<char>> {
    Seq::new(entries.len(), |i: int| entry_key(entries[i]))
}

fn key_of(entry: &FileEntry) -> (key: Vec<char>)
    ensures
        key@ == entry_key(entry@),
{
    let lower = to_lowercase(entry.name.as_str());
    let mut rest = chars_of(lower.as_str());
    let mut key: Vec<char> = Vec::new();
    key.push(
        if entry.is_dir {
            '0'
        } else {
            '1'
        },
    );
    key.append(&mut rest);
    key
}

/// Whether a name is that of a hidden entry.
pub fn hidden(name: &str) -> (hidden: bool)
    ensures
        hidden == is_hidden(name@),
{
    let chars = chars_of(name);
    chars.len() > 0 && chars[0] == '.'
}

fn visible(entries: &Vec<FileEntry>) -> (kept: Vec<FileEntry>)
    ensures
        file_models(kept@) == shown(file_models(entries@)),
{
    let mut kept: Vec<FileEntry> = Vec::new();
    let mut i: usize = 0;
    while i < entries.len()
        invariant
            i <= entries@.len(),
            file_models(kept@) == shown(file_models(entries@).take(i as int)),
        decreases entries@.len() - i,
    {
        let entry = &entries[i];
        let ghost upto = file_models(entries@).take(i + 1);
        assert(upto.drop_last() =~= file_models(entries@).take(i as int));
        if !hidden(entry.name.as_str()) {
            let copy = FileEntry {
                name: entry.name.clone(),
                path: entry.path.clone(),
                is_dir: entry.is_dir,
            };
            kept.push(copy);
        }
        i = i + 1;
    }
    assert(file_models(entries@).take(i as int) =~= file_models(entries@));
    kept
}

/// The listing of a directory, from its entries as they were read:
/// hidden entries are left out, directories come first, and within
/// directories and files the entries are sorted by name without regard
/// to case. Entries that sort alike keep their order.
pub fn list_directory(entries: &Vec<FileEntry>) -> (listing: Vec<FileEntry>)
    ensures
        ({
            let kept = shown(file_models(entries@));
            exists|order: Seq<usize>|
                {
                    &&& is_arrangement(order, kept.len() as int)
                    &&& is_stably_sorted(order, entry_keys(kept), false)
                    &&& file_models(listing@) == Seq::new(
                        kept.len(),
                        |k: int| kept[order[k] as int],
                    )
                }
        }),
{
    let kept = visible(entries);
    let ghost models = file_models(kept@);
    let mut keys: Vec<Vec<char>> = Vec::new();
    let mut i: usize = 0;
    while i < kept.len()
        invariant
            i <= kept@.len(),
            keys@.len() == i,
            forall|k: int| 0 <= k < i ==> (#[trigger] keys@[k])@ == entry_key(kept@[k]@),
        decreases kept@.len() - i,
    {
        keys.push(key_of(&kept[i]));
        i = i + 1;
    }
    assert(keys_of(keys@) =~= entry_keys(models));
    let order = sort_order(&keys, false);
    let mut listing: Vec<FileEntry> = Vec::new();
    let mut k: usize = 0;
    while k < order.len()
        invariant
            k <= order@.len() == kept@.len(),
            is_arrangement(order@, kept@.len() as int),
            listing@.len() == k,
            forall|j: int| 0 <= j < k ==> (#[trigger] listing@[j])@ == kept@[order@[j] as int]@,
        decreases order@.len() - k,
    {
        let item = &kept[order[k]];
        listing.push(
            FileEntry { name: item.name.clone(), path: item.path.clone(), is_dir: item.is_dir },
        );
        k = k + 1;
    }
    listing
}

} // verus!
