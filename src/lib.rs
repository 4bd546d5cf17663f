//! A read-only file system over an ISO 9660 volume image, for an FTP server's
//! storage back-end: path lookup with ASCII case ignored, metadata projection,
//! directory listing and planned file reads. Every change is refused.

use vstd::prelude::*;

pub mod entry;
pub mod error;
pub mod laws;
pub mod names;
pub mod storage;
pub mod walk;

pub use entry::{EntryInfo, EntryKind, IsoMeta};
pub use error::FsError;
pub use names::eq_ignore_case;
pub use storage::{check_listable, list_entries, plan_read, DirItem, ReadPlan, Storage};
pub use walk::{PathComponent, Selected, Step, Walk};

verus! {

} // verus!
