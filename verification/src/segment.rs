//! Memory ranges stored in a core dump.
use vstd::prelude::*;

verus! {

/// A memory range of the dumped process together with its stored contents.
#[derive(Debug, PartialEq, Eq)]
pub struct Segment {
    /// Memory address of this segment
    pub vmaddr: usize,
    /// Memory size of this segment
    pub vmsize: usize,
    /// Permissions of segment
    pub perms: u8,
    /// Memory content that should be mapped
    pub content: Vec<u8>,
}

/// A [`Segment`] with its contents as a sequence of bytes.
pub struct SegmentView {
    pub vmaddr: usize,
    pub vmsize: usize,
    pub perms: u8,
    pub content: Seq<u8>,
}

impl View for Segment {
    type V = SegmentView;

    open spec fn view(&self) -> SegmentView {
        SegmentView {
            vmaddr: self.vmaddr,
            vmsize: self.vmsize,
            perms: self.perms,
            content: self.content@,
        }
    }
}

impl Segment {
    pub fn new(vmaddr: usize, vmsize: usize, perms: u8, content: Vec<u8>) -> (segment: Self)
        ensures
            segment@ == (SegmentView { vmaddr, vmsize, perms, content: content@ }),
            segment.content == content,
    {
        Self { vmaddr, vmsize, perms, content }
    }
}

} // verus!
