use std::time::SystemTime;
use vstd::prelude::*;

verus! {

/// A point in time, carried through unchanged from the volume to the metadata.
#[verifier::external_type_specification]
#[verifier::external_body]
pub struct ExSystemTime(SystemTime);

/// The three kinds of node that a volume's directory tree holds.
#[derive(Clone, Copy, Debug, PartialEq, Eq, Structural)]
pub enum EntryKind {
    Directory,
    File,
    Symlink,
}

/// One decoded node of the volume's directory tree, as plain values.
#[derive(Debug)]
pub struct EntryInfo {
    /// The name as stored on the volume.
    pub identifier: String,
    pub kind: EntryKind,
    /// The size of a file, or the record length of a directory or symlink.
    pub len: u64,
    /// The owner's group id, where the volume records one.
    pub group: Option<u32>,
    /// The owner's user id, where the volume records one.
    pub owner: Option<u32>,
    pub modified: SystemTime,
}

/// A snapshot of one entry's metadata.
#[derive(Debug)]
pub struct IsoMeta {
    /// The file size in bytes
    pub len: u64,
    /// Is it a directory?
    pub dir: bool,
    /// Is it a symbolic link?
    pub sym: bool,
    /// The Unix group ID if available, otherwise 0
    pub group: u32,
    /// The Unix UID if available, otherwise 0
    pub owner: u32,
    /// The last modified time of the file
    pub modified: SystemTime,
}

/// An id that the volume may leave out, with 0 in its place.
pub open spec fn id_or_zero(id: Option<u32>) -> u32 {
    match id {
        Some(v) => v,
        None => 0,
    }
}

/// The metadata that an entry projects to.
pub open spec fn meta_of(e: EntryInfo) -> IsoMeta {
    IsoMeta {
        len: e.len,
        dir: e.kind == EntryKind::Directory,
        sym: e.kind == EntryKind::Symlink,
        group: id_or_zero(e.group),
        owner: id_or_zero(e.owner),
        modified: e.modified,
    }
}

fn unwrap_id(id: Option<u32>) -> (r: u32)
    ensures
        r == id_or_zero(id),
{
    match id {
        Some(v) => v,
        None => 0,
    }
}

impl IsoMeta {
    /// Projects a decoded entry to its metadata.
    pub fn from_entry(e: &EntryInfo) -> (m: IsoMeta)
        ensures
            m == meta_of(*e),
    {
        IsoMeta {
            len: e.len,
            dir: e.kind == EntryKind::Directory,
            sym: e.kind == EntryKind::Symlink,
            group: unwrap_id(e.group),
            owner: unwrap_id(e.owner),
            modified: e.modified,
        }
    }

    pub fn len(&self) -> (r: u64)
        ensures
            r == self.len,
    {
        self.len
    }

    pub fn is_dir(&self) -> (r: bool)
        ensures
            r == self.dir,
    {
        self.dir
    }

    pub fn is_file(&self) -> (r: bool)
        ensures
            r == !self.dir,
    {
        !self.dir
    }

    /// Symbolic links are reported as such nowhere: this is always false, even
    /// where `sym` is set.
    pub fn is_symlink(&self) -> (r: bool)
        ensures
            r == false,
    {
        false
    }

    pub fn modified(&self) -> (r: SystemTime)
        ensures
            r == self.modified,
    {
        self.modified
    }

    pub fn gid(&self) -> (r: u32)
        ensures
            r == self.group,
    {
        self.group
    }

    pub fn uid(&self) -> (r: u32)
        ensures
            r == self.owner,
    {
        self.owner
    }
}

} // verus!
