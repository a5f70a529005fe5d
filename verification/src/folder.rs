//! The size of a folder, from a listing of what is under it.

use vstd::prelude::*;

verus! {

/// An entry of a folder listing.
#[derive(Debug)]
pub enum FolderEntry {
    /// A regular file and its size in bytes.
    File { size: u64 },
    /// A folder and what it holds.
    Folder { entries: Vec<FolderEntry> },
    /// Anything else. It counts for nothing.
    Other,
}

/// The bytes under one entry: a file's size, or the bytes under all the
/// entries of a folder.
pub open spec fn entry_bytes(e: FolderEntry) -> nat
    decreases e, 0nat,
{
    match e {
        FolderEntry::File { size } => size as nat,
        FolderEntry::Folder { entries } => listing_bytes(entries@, entries@.len()),
        FolderEntry::Other => 0,
    }
}

/// The bytes under the first `k` entries of a listing.
pub open spec fn listing_bytes(entries: Seq<FolderEntry>, k: nat) -> nat
    decreases entries, k,
{
    if k == 0 || k > entries.len() {
        0
    } else {
        listing_bytes(entries, (k - 1) as nat) + entry_bytes(entries[k - 1])
    }
}

/// The bytes under a folder with the entries `entries`.
pub open spec fn folder_bytes(entries: Seq<FolderEntry>) -> nat {
    listing_bytes(entries, entries.len())
}

/// The bytes under the first `k` entries of a listing. `None` where they do
/// not fit in 64 bits.
fn listing_size(entries: &Vec<FolderEntry>, k: usize) -> (r: Option<u64>)
    requires
        k <= entries@.len(),
    ensures
        r == if listing_bytes(entries@, k as nat) <= u64::MAX {
            Some(listing_bytes(entries@, k as nat) as u64)
        } else {
            None
        },
    decreases entries@, k,
{
    if k == 0 {
        return Some(0);
    }
    let before: u64 = match listing_size(entries, k - 1) {
        Some(b) => b,
        None => {
            return None;
        },
    };
    let here: u64 = match entry_size(&entries[k - 1]) {
        Some(h) => h,
        None => {
            return None;
        },
    };
    if here > u64::MAX - before {
        None
    } else {
        Some(before + here)
    }
}

/// The bytes under one entry. `None` where they do not fit in 64 bits.
pub fn entry_size(e: &FolderEntry) -> (r: Option<u64>)
    ensures
        r == if entry_bytes(*e) <= u64::MAX {
            Some(entry_bytes(*e) as u64)
        } else {
            None
        },
    decreases *e, 0nat,
{
    match e {
        FolderEntry::File { size } => Some(*size),
        FolderEntry::Folder { entries } => {
            proof {
                assert(decreases_to!(*e => *entries));
                assert(decreases_to!(*entries => entries@));
            }
            listing_size(entries, entries.len())
        },
        FolderEntry::Other => Some(0),
    }
}

/// The size of a folder in bytes: the sum of the sizes of the regular files
/// under it, however deep. `None` where the sum does not fit in 64 bits.
pub fn calculate_folder_size(entries: &Vec<FolderEntry>) -> (r: Option<u64>)
    ensures
        r == if folder_bytes(entries@) <= u64::MAX {
            Some(folder_bytes(entries@) as u64)
        } else {
            None
        },
{
    listing_size(entries, entries.len())
}

} // verus!
