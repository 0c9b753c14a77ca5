use vstd::prelude::*;

verus! {

/// One filesystem mount: what is mounted, where, as which filesystem type,
/// with which mount flags (the kernel's `MS_*` bits).
pub struct MountPoint {
    pub source: String,
    pub target: String,
    pub fstype: String,
    pub flags: u64,
}

impl MountPoint {
    /// Describes a mount without performing it.
    pub fn new(src: &str, tgt: &str, fstype: &str, flags: u64) -> (r: MountPoint)
        ensures
            r.source@ == src@,
            r.target@ == tgt@,
            r.fstype@ == fstype@,
            r.flags == flags,
    {
        MountPoint { source: src.to_owned(), target: tgt.to_owned(), fstype: fstype.to_owned(), flags }
    }
}

} // verus!
