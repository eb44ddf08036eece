//! Host-facing item descriptors and edit operations.
use vstd::prelude::*;

verus! {

/// The descriptor the host sees for one item.
pub struct ArchiveItem {
    /// The item's name: the entry's decoded filename, or a synthesized
    /// placeholder when the filename table holds none.
    pub name: String,
    /// Decompressed size of the item's content.
    pub size: u64,
    /// Size of the item's compressed chunk.
    pub packed_size: u64,
}

/// An item together with the container position it came from.
pub struct EraItem {
    /// The host-facing descriptor.
    pub info: ArchiveItem,
    /// Position of the originating entry in the container; never 0, which is
    /// the reserved filename table.
    pub era_index: usize,
}

/// One edit operation of a rebuild, supplied per update call.
pub enum UpdateItem {
    /// Emit an existing item's content unchanged, optionally renamed,
    /// reusing its compressed chunk.
    CopyExisting { index: usize, new_name: Option<String> },
    /// Compress and insert new content under the given name.
    AddNew { name: String, data: Vec<u8> },
}

} // verus!
