//! The SFTP server that publishes the dumps: credentials, and which dump
//! directory is the latest.
use vstd::prelude::*;

verus! {

/// Login details of the dump server. The key fields are file paths.
#[derive(Debug, Clone)]
pub struct Credential {
    pub host: String,
    pub username: String,
    pub public_key: String,
    pub private_key: String,
}

/// What the listing of the dump folder says of one entry.
#[derive(Debug, Clone, Copy)]
pub struct DirEntryInfo {
    pub is_dir: bool,
    /// Modification time, when the server reports one.
    pub mtime: Option<u64>,
}

/// The order in which entries are compared: by modification time, an entry
/// without one before every entry with one.
pub open spec fn mtime_rank(e: DirEntryInfo) -> int {
    match e.mtime {
        Some(t) => t as int,
        None => -1,
    }
}

/// The latest dump directory of a folder listing: among the entries that are
/// directories, one with the greatest modification time, the last such one
/// where several share it; `None` when no entry is a directory.
pub fn latest_dir(entries: &[DirEntryInfo]) -> (r: Option<usize>)
    ensures
        r is None <==> forall|j: int| 0 <= j < entries@.len() ==> !(#[trigger] entries@[j]).is_dir,
        r matches Some(i) ==> {
            &&& i < entries@.len()
            &&& entries@[i as int].is_dir
            &&& forall|j: int|
                0 <= j < entries@.len() && (#[trigger] entries@[j]).is_dir ==> mtime_rank(
                    entries@[j],
                ) <= mtime_rank(entries@[i as int])
            &&& forall|j: int|
                i < j < entries@.len() && (#[trigger] entries@[j]).is_dir ==> mtime_rank(
                    entries@[j],
                ) < mtime_rank(entries@[i as int])
        },
{
    let n = entries.len();
    let mut best: Option<usize> = None;
    let mut k: usize = 0;
    while k < n
        invariant
            k <= n,
            n == entries@.len(),
            best is None <==> forall|j: int| 0 <= j < k ==> !(#[trigger] entries@[j]).is_dir,
            best matches Some(i) ==> {
                &&& i < k
                &&& entries@[i as int].is_dir
                &&& forall|j: int|
                    0 <= j < k && (#[trigger] entries@[j]).is_dir ==> mtime_rank(entries@[j])
                        <= mtime_rank(entries@[i as int])
                &&& forall|j: int|
                    i < j < k && (#[trigger] entries@[j]).is_dir ==> mtime_rank(entries@[j])
                        < mtime_rank(entries@[i as int])
            },
        decreases n - k,
    {
        let e = entries[k];
        if e.is_dir {
            match best {
                None => {
                    best = Some(k);
                },
                Some(i) => {
                    let b = entries[i];
                    let not_older = match (e.mtime, b.mtime) {
                        (None, None) => true,
                        (None, Some(_)) => false,
                        (Some(_), None) => true,
                        (Some(x), Some(y)) => x >= y,
                    };
                    if not_older {
                        best = Some(k);
                    }
                },
            }
        }
        k = k + 1;
    }
    best
}

} // verus!
