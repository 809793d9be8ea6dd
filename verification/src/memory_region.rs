//! Host memory made visible at a guest address, page by page.

use vstd::prelude::*;
use crate::error::{result_view, CallError, CallErrorView};
use crate::function_types::copy_bytes;

verus! {

/// The size of a page, in bytes. The base and the length of a mapped region
/// are whole multiples of it.
pub const PAGE_SIZE: u64 = 4096;

/// What a region is for. It is carried along for whoever asked for the
/// mapping; the mapper decides nothing by it.
#[derive(Clone, Copy, Debug, PartialEq, Eq, Structural)]
pub enum MemoryRegionType {
    Code,
    InitData,
    Heap,
    Stack,
}

/// What stands behind a region.
#[derive(Clone, Copy, Debug, PartialEq, Eq, Structural)]
pub enum RegionBacking {
    /// Memory of the host that belongs to no file.
    Anonymous,
    /// The contents of a file; what the guest writes never reaches the file.
    FileCopyOnWrite,
}

/// A stretch of host memory and the guest address it is to appear at. Its
/// length is the number of bytes of host memory it holds.
#[derive(Debug, PartialEq, Eq)]
pub struct MemoryRegion {
    pub guest_base: u64,
    pub host_memory: Vec<u8>,
    pub region_type: MemoryRegionType,
    pub backing: RegionBacking,
}

/// The mathematical content of a [`MemoryRegion`].
pub struct MemoryRegionView {
    pub guest_base: u64,
    pub host_memory: Seq<u8>,
    pub region_type: MemoryRegionType,
    pub backing: RegionBacking,
}

impl MemoryRegionView {
    /// Whether `address` lies inside this region.
    pub open spec fn covers(self, address: u64) -> bool {
        self.guest_base <= address && address - self.guest_base < self.host_memory.len()
    }

    /// Whether base and length are whole numbers of pages.
    pub open spec fn aligned(self) -> bool {
        region_aligned(self.guest_base as nat, self.host_memory.len())
    }
}

impl View for MemoryRegion {
    type V = MemoryRegionView;

    open spec fn view(&self) -> MemoryRegionView {
        MemoryRegionView {
            guest_base: self.guest_base,
            host_memory: self.host_memory@,
            region_type: self.region_type,
            backing: self.backing,
        }
    }
}

/// The contents of a sequence of regions, one by one.
pub open spec fn regions_view(regions: Seq<MemoryRegion>) -> Seq<MemoryRegionView> {
    Seq::new(regions.len(), |i: int| regions[i]@)
}

/// Whether a region at `base` of `length` bytes starts and ends on a page
/// boundary.
pub open spec fn region_aligned(base: nat, length: nat) -> bool {
    base % (PAGE_SIZE as nat) == 0 && length % (PAGE_SIZE as nat) == 0
}

/// What a request to map `length` bytes at `base` is answered with.
pub open spec fn alignment_checked(base: u64, length: u64) -> Result<(), CallErrorView> {
    if region_aligned(base as nat, length as nat) {
        Ok(())
    } else {
        Err(CallErrorView::InvalidRegionAlignment { base, length })
    }
}

/// The length of the mapping of a file of `file_length` bytes: the least
/// whole number of pages that holds them.
pub open spec fn mapped_length(file_length: nat) -> nat {
    ((file_length + PAGE_SIZE - 1) / (PAGE_SIZE as int) * PAGE_SIZE) as nat
}

/// What the guest sees of a file mapped copy-on-write: the file's bytes,
/// then zeroes up to the end of the last page.
pub open spec fn file_image(contents: Seq<u8>) -> Seq<u8> {
    Seq::new(
        mapped_length(contents.len()),
        |i: int|
            if i < contents.len() {
                contents[i]
            } else {
                0u8
            },
    )
}

/// The byte the guest reads at `address`: that of the region mapped last
/// among those that cover the address, or nothing where none does.
pub open spec fn byte_at(regions: Seq<MemoryRegionView>, address: u64) -> Option<u8>
    decreases regions.len(),
{
    if regions.len() == 0 {
        None
    } else if regions.last().covers(address) {
        Some(regions.last().host_memory[address - regions.last().guest_base])
    } else {
        byte_at(regions.drop_last(), address)
    }
}

/// Accepts a region of `length` bytes at `base` if both are whole numbers
/// of pages, and refuses it otherwise.
pub fn check_alignment(base: u64, length: u64) -> (outcome: Result<(), CallError>)
    ensures
        result_view(outcome) == alignment_checked(base, length),
{
    if base % PAGE_SIZE == 0 && length % PAGE_SIZE == 0 {
        Ok(())
    } else {
        Err(CallError::InvalidRegionAlignment { base, length })
    }
}

/// The bytes the guest sees of a file with the contents `contents`.
pub fn build_file_image(contents: &[u8]) -> (image: Vec<u8>)
    requires
        contents@.len() + PAGE_SIZE <= usize::MAX,
    ensures
        image@ == file_image(contents@),
{
    let length = contents.len();
    let page = PAGE_SIZE as usize;
    let total: usize = (length + (page - 1)) / page * page;
    assert(total == mapped_length(length as nat)) by (nonlinear_arith)
        requires
            total == (length + (page - 1)) / (page as int) * page,
            page == 4096,
            PAGE_SIZE == 4096,
    {
        assert(mapped_length(length as nat) == ((length + 4096 - 1) / 4096 * 4096) as nat);
    }
    let mut image: Vec<u8> = Vec::new();
    let mut i: usize = 0;
    while i < total
        invariant
            i <= total,
            length == contents@.len(),
            image.len() == i,
            forall|j: int|
                0 <= j < i ==> image[j] == (if j < length {
                    contents[j]
                } else {
                    0u8
                }),
        decreases total - i,
    {
        if i < length {
            image.push(contents[i]);
        } else {
            image.push(0u8);
        }
        i += 1;
    }
    assert(image@ =~= file_image(contents@));
    image
}

/// Reads the byte at the guest address `address` out of the mapped regions.
pub fn read_mapped(regions: &Vec<MemoryRegion>, address: u64) -> (byte: Option<u8>)
    ensures
        byte == byte_at(regions_view(regions@), address),
{
    let mut i: usize = regions.len();
    assert(regions_view(regions@).take(i as int) =~= regions_view(regions@));
    while i > 0
        invariant
            i <= regions.len(),
            byte_at(regions_view(regions@), address) == byte_at(
                regions_view(regions@).take(i as int),
                address,
            ),
        decreases i,
    {
        let region = &regions[i - 1];
        let ghost prefix = regions_view(regions@).take(i as int);
        assert(prefix.last() == region@);
        assert(prefix.drop_last() =~= regions_view(regions@).take(i - 1));
        if region.guest_base <= address {
            let offset: u64 = address - region.guest_base;
            if offset < region.host_memory.len() as u64 {
                return Some(region.host_memory[offset as usize]);
            }
        }
        i -= 1;
    }
    assert(regions_view(regions@).take(0) =~= Seq::<MemoryRegionView>::empty());
    None
}

impl MemoryRegion {
    /// A region of the host memory `host_memory`, to appear at `guest_base`.
    pub fn new(
        guest_base: u64,
        host_memory: Vec<u8>,
        region_type: MemoryRegionType,
        backing: RegionBacking,
    ) -> (region: MemoryRegion)
        ensures
            region@ == (MemoryRegionView {
                guest_base,
                host_memory: host_memory@,
                region_type,
                backing,
            }),
    {
        MemoryRegion { guest_base, host_memory, region_type, backing }
    }

    /// The number of bytes in the region.
    pub fn length(&self) -> (length: usize)
        ensures
            length == self@.host_memory.len(),
    {
        self.host_memory.len()
    }

    /// An independent copy holding the same content.
    pub fn duplicate(&self) -> (copy: MemoryRegion)
        ensures
            copy@ == self@,
    {
        MemoryRegion {
            guest_base: self.guest_base,
            host_memory: copy_bytes(&self.host_memory),
            region_type: self.region_type,
            backing: self.backing,
        }
    }
}

/// A region mapped last is read back byte for byte at its guest address,
/// whatever was mapped before it.
pub proof fn lemma_mapped_bytes_are_readable(
    regions: Seq<MemoryRegionView>,
    region: MemoryRegionView,
    offset: nat,
)
    requires
        offset < region.host_memory.len(),
        region.guest_base + offset <= u64::MAX,
    ensures
        byte_at(regions.push(region), (region.guest_base + offset) as u64) == Some(
            region.host_memory[offset as int],
        ),
{
    assert(regions.push(region).last() == region);
}

/// Whether a mapping request is accepted does not depend on what the region
/// is said to be for, nor on what stands behind it.
pub proof fn lemma_kind_is_advisory(left: MemoryRegionView, right: MemoryRegionView)
    requires
        left.guest_base == right.guest_base,
        left.host_memory.len() == right.host_memory.len(),
    ensures
        left.aligned() == right.aligned(),
{
}

/// The mapping of a file is a whole number of pages, holds the file, and is
/// less than a page longer than it.
pub proof fn lemma_mapped_length(file_length: nat)
    ensures
        mapped_length(file_length) % (PAGE_SIZE as nat) == 0,
        file_length <= mapped_length(file_length) < file_length + PAGE_SIZE,
{
    assert(PAGE_SIZE == 4096);
    let pages = (file_length + 4096 - 1) / 4096;
    assert(mapped_length(file_length) == pages * 4096);
    assert((pages * 4096) % 4096 == 0) by (nonlinear_arith);
    assert(file_length <= pages * 4096 < file_length + 4096) by (nonlinear_arith)
        requires
            pages == (file_length + 4096 - 1) / 4096,
    ;
}

} // verus!
