use crate::entry::{meta_of, EntryInfo, EntryKind, IsoMeta};
use crate::error::FsError;
use vstd::prelude::*;

verus! {

/// A read-only view of one volume image, known by the image's path.
#[derive(Debug, Clone)]
pub struct Storage {
    iso_path: String,
}

/// One line of a directory listing: an entry's stored name and its metadata.
#[derive(Debug)]
pub struct DirItem {
    pub path: String,
    pub metadata: IsoMeta,
}

/// Where reading a file's content starts and how many bytes it yields.
#[derive(Debug, PartialEq, Eq, Structural)]
pub struct ReadPlan {
    /// The offset to seek to first, if any.
    pub seek: Option<u64>,
    /// The number of bytes from there to the end of the file.
    pub len: u64,
}

/// The entries of a directory that decoded, in stored order.
pub open spec fn decoded(ch: Seq<Option<EntryInfo>>) -> Seq<EntryInfo>
    decreases ch.len(),
{
    if ch.len() == 0 {
        Seq::empty()
    } else {
        let rest = decoded(ch.drop_last());
        match ch.last() {
            Some(e) => rest.push(e),
            None => rest,
        }
    }
}

/// The bytes that remain of a file of `size` bytes from offset `start`.
pub open spec fn remaining(size: u64, start: u64) -> u64 {
    if start < size {
        (size - start) as u64
    } else {
        0
    }
}

impl Storage {
    pub closed spec fn path(&self) -> Seq<char> {
        self.iso_path@
    }

    /// Creates the storage back-end for the image at `iso_path`.
    pub fn new(iso_path: &str) -> (s: Storage)
        ensures
            s.path() == iso_path@,
    {
        Storage { iso_path: iso_path.to_owned() }
    }

    /// The path of the volume image.
    pub fn iso_path(&self) -> (r: &str)
        ensures
            r@ == self.path(),
    {
        self.iso_path.as_str()
    }

    /// Writing a file is refused: the volume is read-only.
    pub fn put(&self, path: &str, start_pos: u64) -> (r: Result<u64, FsError>)
        ensures
            r == Err::<u64, FsError>(FsError::PermissionDenied),
    {
        Err(FsError::PermissionDenied)
    }

    /// Deleting a file is refused: the volume is read-only.
    pub fn del(&self, path: &str) -> (r: Result<(), FsError>)
        ensures
            r == Err::<(), FsError>(FsError::PermissionDenied),
    {
        Err(FsError::PermissionDenied)
    }

    /// Creating a directory is refused: the volume is read-only.
    pub fn mkd(&self, path: &str) -> (r: Result<(), FsError>)
        ensures
            r == Err::<(), FsError>(FsError::PermissionDenied),
    {
        Err(FsError::PermissionDenied)
    }

    /// Renaming is refused: the volume is read-only.
    pub fn rename(&self, from: &str, to: &str) -> (r: Result<(), FsError>)
        ensures
            r == Err::<(), FsError>(FsError::PermissionDenied),
    {
        Err(FsError::PermissionDenied)
    }

    /// Removing a directory is refused: the volume is read-only.
    pub fn rmd(&self, path: &str) -> (r: Result<(), FsError>)
        ensures
            r == Err::<(), FsError>(FsError::PermissionDenied),
    {
        Err(FsError::PermissionDenied)
    }
}

/// Only a directory can be listed.
pub fn check_listable(kind: EntryKind) -> (r: Result<(), FsError>)
    ensures
        kind == EntryKind::Directory ==> r == Ok::<(), FsError>(()),
        kind != EntryKind::Directory ==> r == Err::<(), FsError>(FsError::NotPermittedOnFile),
{
    match kind {
        EntryKind::Directory => Ok(()),
        _ => Err(FsError::NotPermittedOnFile),
    }
}

/// Lists a directory: each entry that decoded, in stored order, with its
/// name and metadata; entries that failed to decode are left out.
pub fn list_entries(children: &[Option<EntryInfo>]) -> (r: Vec<DirItem>)
    ensures
        r@.len() == decoded(children@).len(),
        forall|k: int|
            0 <= k < r@.len() ==> {
                &&& (#[trigger] r@[k]).path@ == decoded(children@)[k].identifier@
                &&& r@[k].metadata == meta_of(decoded(children@)[k])
            },
{
    let mut out: Vec<DirItem> = Vec::new();
    let mut i: usize = 0;
    while i < children.len()
        invariant
            i <= children@.len(),
            out@.len() == decoded(children@.subrange(0, i as int)).len(),
            forall|k: int|
                0 <= k < out@.len() ==> {
                    &&& (#[trigger] out@[k]).path@ == decoded(
                        children@.subrange(0, i as int),
                    )[k].identifier@
                    &&& out@[k].metadata == meta_of(decoded(children@.subrange(0, i as int))[k])
                },
        decreases children@.len() - i,
    {
        assert(children@.subrange(0, i + 1).drop_last() =~= children@.subrange(0, i as int));
        assert(children@.subrange(0, i + 1).last() == children@[i as int]);
        if let Some(e) = &children[i] {
            out.push(DirItem { path: e.identifier.clone(), metadata: IsoMeta::from_entry(e) });
        }
        i = i + 1;
    }
    assert(children@.subrange(0, children@.len() as int) =~= children@);
    out
}

/// Plans reading a file from `start_pos`: only a file can be read; an offset
/// at or past the end yields no bytes and needs no seek.
pub fn plan_read(kind: EntryKind, size: u64, start_pos: u64) -> (r: Result<ReadPlan, FsError>)
    ensures
        kind != EntryKind::File ==> r == Err::<ReadPlan, FsError>(FsError::NotAFile),
        kind == EntryKind::File ==> r == Ok::<ReadPlan, FsError>(
            ReadPlan {
                seek: if 0 < start_pos && start_pos < size {
                    Some(start_pos)
                } else {
                    None
                },
                len: remaining(size, start_pos),
            },
        ),
{
    match kind {
        EntryKind::File => {
            if start_pos >= size {
                Ok(ReadPlan { seek: None, len: 0 })
            } else if start_pos == 0 {
                Ok(ReadPlan { seek: None, len: size })
            } else {
                Ok(ReadPlan { seek: Some(start_pos), len: size - start_pos })
            }
        },
        _ => Err(FsError::NotAFile),
    }
}

} // verus!
