use std::sync::Arc;

use vstd::prelude::*;

use crate::device::Device;
use crate::error::{Error, Result};

verus! {

/// Property flags of a memory type, with the bit values of the native API.
pub type MemoryPropertyFlags = u32;

pub const MEMORY_PROPERTY_DEVICE_LOCAL: MemoryPropertyFlags = 1;

pub const MEMORY_PROPERTY_HOST_VISIBLE: MemoryPropertyFlags = 2;

pub const MEMORY_PROPERTY_HOST_COHERENT: MemoryPropertyFlags = 4;

/// The native API never reports more memory types than this.
pub const MAX_MEMORY_TYPES: usize = 32;

/// One entry of a device's memory-type table.
#[derive(Debug, Clone, Copy, PartialEq, Eq)]
pub struct MemoryType {
    pub property_flags: MemoryPropertyFlags,
    pub heap_index: u32,
}

/// Size, alignment and allowed memory types of a resource, as the device reports them.
#[derive(Debug, Clone, Copy, PartialEq, Eq)]
pub struct MemoryRequirements {
    pub size: u64,
    pub alignment: u64,
    /// Bit `i` is set when memory type `i` may back the resource.
    pub memory_type_bits: u32,
}

/// `flags` holds every bit of `required`.
pub open spec fn contains_flags(flags: u32, required: u32) -> bool {
    flags & required == required
}

/// Memory type `index` is allowed by the bitmask `bits`.
pub open spec fn type_allowed(bits: u32, index: int) -> bool {
    0 <= index < 32 && (bits >> (index as u32)) & 1u32 == 1u32
}

/// Entry `index` of `types` is allowed by `bits` and carries every flag of `required`.
pub open spec fn qualifies(types: Seq<MemoryType>, bits: u32, required: u32, index: int) -> bool {
    &&& 0 <= index < types.len()
    &&& type_allowed(bits, index)
    &&& contains_flags(types[index].property_flags, required)
}

/// Some entry of `types` qualifies.
pub open spec fn has_memory_type(types: Seq<MemoryType>, bits: u32, required: u32) -> bool {
    exists|i: int| qualifies(types, bits, required, i)
}

/// `index` is the lowest qualifying entry of `types`.
pub open spec fn lowest_memory_type(
    types: Seq<MemoryType>,
    bits: u32,
    required: u32,
    index: int,
) -> bool {
    &&& qualifies(types, bits, required, index)
    &&& forall|j: int| 0 <= j < index ==> !qualifies(types, bits, required, j)
}

/// What a search of `types` owes: the lowest qualifying index, or
/// `NoMatchingMemoryType` exactly when none qualifies.
pub open spec fn memory_type_search(
    types: Seq<MemoryType>,
    bits: u32,
    required: u32,
    r: Result<u32>,
) -> bool {
    match r {
        Ok(i) => lowest_memory_type(types, bits, required, i as int),
        Err(e) => e == Error::NoMatchingMemoryType && !has_memory_type(types, bits, required),
    }
}

fn flags_contain(flags: u32, required: u32) -> (r: bool)
    ensures
        r == contains_flags(flags, required),
{
    flags & required == required
}

fn bit_set(bits: u32, index: u32) -> (r: bool)
    requires
        index < 32,
    ensures
        r == type_allowed(bits, index as int),
{
    (bits >> index) & 1u32 == 1u32
}

/// Scans the memory-type table in index order and returns the first entry that the
/// requirements allow and whose flags contain `required_properties`.
pub fn find_memory_type(
    types: &Vec<MemoryType>,
    requirements: &MemoryRequirements,
    required_properties: MemoryPropertyFlags,
) -> (r: Result<u32>)
    ensures
        memory_type_search(types@, requirements.memory_type_bits, required_properties, r),
{
    let bits: u32 = requirements.memory_type_bits;
    let mut index: usize = 0;
    while index < types.len()
        invariant
            index <= types.len(),
            bits == requirements.memory_type_bits,
            forall|j: int| 0 <= j < index ==> !qualifies(types@, bits, required_properties, j),
        decreases types.len() - index,
    {
        if index < MAX_MEMORY_TYPES && bit_set(bits, index as u32) && flags_contain(
            types[index].property_flags,
            required_properties,
        ) {
            return Ok(index as u32);
        }
        proof {
            if index >= MAX_MEMORY_TYPES {
                assert(!type_allowed(bits, index as int));
            }
        }
        index += 1;
    }
    Err(Error::NoMatchingMemoryType)
}

/// The device-local-preferred policy: the lowest device-local type the requirements
/// allow, or failing that the lowest allowed type of any properties.
pub open spec fn prefer_device_local_search(types: Seq<MemoryType>, bits: u32, r: Result<u32>) -> bool {
    if has_memory_type(types, bits, MEMORY_PROPERTY_DEVICE_LOCAL) {
        memory_type_search(types, bits, MEMORY_PROPERTY_DEVICE_LOCAL, r)
    } else {
        memory_type_search(types, bits, 0, r)
    }
}

/// Tries the device-local property first and, only when no type has it, retries with
/// no required property at all.
pub fn find_memory_type_prefer_device_local(
    types: &Vec<MemoryType>,
    requirements: &MemoryRequirements,
) -> (r: Result<u32>)
    ensures
        prefer_device_local_search(types@, requirements.memory_type_bits, r),
{
    match find_memory_type(types, requirements, MEMORY_PROPERTY_DEVICE_LOCAL) {
        Ok(index) => Ok(index),
        Err(Error::NoMatchingMemoryType) => find_memory_type(types, requirements, 0),
        Err(err) => Err(err),
    }
}

/// Every flag set contains the empty set, so a search with no required property finds
/// a type exactly when the bitmask allows some entry of the table.
pub proof fn lemma_no_required_property(types: Seq<MemoryType>, bits: u32)
    ensures
        has_memory_type(types, bits, 0) <==> exists|i: int|
            0 <= i < types.len() && type_allowed(bits, i),
{
    assert forall|f: u32| #[trigger] contains_flags(f, 0) by {
        assert(f & 0 == 0) by (bit_vector);
    }
    if exists|i: int| 0 <= i < types.len() && type_allowed(bits, i) {
        let i = choose|i: int| 0 <= i < types.len() && type_allowed(bits, i);
        assert(contains_flags(types[i].property_flags, 0));
        assert(qualifies(types, bits, 0, i));
    }
}

/// Device-local-preferred selection fails only when both searches fail: it succeeds
/// whenever the requirements allow at least one entry of the table.
pub proof fn lemma_prefer_device_local_succeeds(types: Seq<MemoryType>, bits: u32, r: Result<u32>)
    requires
        exists|i: int| 0 <= i < types.len() && type_allowed(bits, i),
        prefer_device_local_search(types, bits, r),
    ensures
        r is Ok,
{
    lemma_no_required_property(types, bits);
}

/// What the native allocation of one `Memory` is made from.
#[derive(Debug, Clone, Copy, PartialEq, Eq)]
pub struct MemoryAllocateInfo {
    pub allocation_size: u64,
    pub memory_type_index: u32,
    /// The property flags of the chosen memory type.
    pub property_flags: MemoryPropertyFlags,
}

/// Memory of this type is mapped once at creation and stays mapped.
pub open spec fn host_visible(flags: MemoryPropertyFlags) -> bool {
    contains_flags(flags, MEMORY_PROPERTY_HOST_VISIBLE)
}

/// The allocate info for `requirements` at the table entry `index`.
pub open spec fn allocate_info_for(
    types: Seq<MemoryType>,
    requirements: MemoryRequirements,
    index: u32,
) -> MemoryAllocateInfo {
    MemoryAllocateInfo {
        allocation_size: requirements.size,
        memory_type_index: index,
        property_flags: types[index as int].property_flags,
    }
}

/// What an allocation request owes: the allocate info at the lowest qualifying memory
/// type, or `NoMatchingMemoryType` exactly when none qualifies.
pub open spec fn allocation_search(
    types: Seq<MemoryType>,
    requirements: MemoryRequirements,
    required: u32,
    r: Result<MemoryAllocateInfo>,
) -> bool {
    match r {
        Ok(info) => {
            &&& lowest_memory_type(types, requirements.memory_type_bits, required, info.memory_type_index as int)
            &&& info == allocate_info_for(types, requirements, info.memory_type_index)
        },
        Err(e) => e == Error::NoMatchingMemoryType && !has_memory_type(
            types,
            requirements.memory_type_bits,
            required,
        ),
    }
}

/// The device-local-preferred policy applied to an allocation request.
pub open spec fn allocation_prefer_device_local(
    types: Seq<MemoryType>,
    requirements: MemoryRequirements,
    r: Result<MemoryAllocateInfo>,
) -> bool {
    if has_memory_type(types, requirements.memory_type_bits, MEMORY_PROPERTY_DEVICE_LOCAL) {
        allocation_search(types, requirements, MEMORY_PROPERTY_DEVICE_LOCAL, r)
    } else {
        allocation_search(types, requirements, 0, r)
    }
}

/// `r` is the allocate info that the search result `found` leads to.
pub open spec fn allocate_info_from(
    types: Seq<MemoryType>,
    requirements: MemoryRequirements,
    found: Result<u32>,
    r: Result<MemoryAllocateInfo>,
) -> bool {
    match found {
        Ok(i) => r == Ok::<MemoryAllocateInfo, Error>(allocate_info_for(types, requirements, i)),
        Err(e) => r == Err::<MemoryAllocateInfo, Error>(e),
    }
}

pub(crate) fn allocate_info(
    types: &Vec<MemoryType>,
    requirements: &MemoryRequirements,
    found: Result<u32>,
) -> (r: Result<MemoryAllocateInfo>)
    requires
        found matches Ok(i) ==> i < types.len(),
    ensures
        allocate_info_from(types@, *requirements, found, r),
{
    match found {
        Ok(index) => Ok(MemoryAllocateInfo {
            allocation_size: requirements.size,
            memory_type_index: index,
            property_flags: types[index as usize].property_flags,
        }),
        Err(err) => Err(err),
    }
}

/// A range of a mapped allocation to flush or invalidate.
#[derive(Debug, Clone, Copy, PartialEq, Eq)]
pub struct MappedMemoryRange {
    pub memory: u64,
    pub offset: u64,
    pub size: u64,
}

/// One device memory allocation, possibly held host-mapped for its whole lifetime.
#[derive(Debug)]
pub struct Memory {
    /// The native device-memory handle.
    pub handle: u64,
    pub device: Arc<Device>,
    pub size: u64,
    pub memory_type_index: u32,
    pub property_flags: MemoryPropertyFlags,
    /// The allocation carries a persistent host mapping.
    pub mapped: bool,
}

/// The range that covers all of `memory`.
pub open spec fn whole_range(memory: &Memory) -> MappedMemoryRange {
    MappedMemoryRange { memory: memory.handle, offset: 0, size: memory.size }
}

/// Read access to a mapped allocation: the range was invalidated when it was made.
#[derive(Debug, Clone, Copy, PartialEq, Eq)]
pub struct MemoryRead {
    pub range: MappedMemoryRange,
}

/// Write access to a mapped allocation, flushed once when it is released unless
/// flushed explicitly before.
#[derive(Debug, PartialEq, Eq)]
pub struct MemoryWrite {
    pub range: MappedMemoryRange,
    pub flushed: bool,
}

/// Read access to `memory`: the whole mapping, or `UnsupportedOperation` when it is
/// not mapped.
pub open spec fn read_result(memory: &Memory) -> Result<MemoryRead> {
    if memory.mapped {
        Ok(MemoryRead { range: whole_range(memory) })
    } else {
        Err(Error::UnsupportedOperation)
    }
}

/// Write access to `memory`: the whole mapping, not yet flushed, or
/// `UnsupportedOperation` when it is not mapped.
pub open spec fn write_result(memory: &Memory) -> Result<MemoryWrite> {
    if memory.mapped {
        Ok(MemoryWrite { range: whole_range(memory), flushed: false })
    } else {
        Err(Error::UnsupportedOperation)
    }
}

/// The flush that releasing `w` issues.
pub open spec fn release_flush(w: MemoryWrite) -> Option<MappedMemoryRange> {
    if w.flushed {
        None
    } else {
        Some(w.range)
    }
}

/// `w` after an explicit flush.
pub open spec fn after_flush(w: MemoryWrite) -> MemoryWrite {
    MemoryWrite { range: w.range, flushed: true }
}

impl Memory {
    /// Wraps a native allocation made from `info`; it is host-mapped exactly when the
    /// chosen type is host-visible.
    pub fn new(device: Arc<Device>, info: &MemoryAllocateInfo, handle: u64) -> (r: Arc<Memory>)
        ensures
            r.handle == handle,
            r.device == device,
            r.size == info.allocation_size,
            r.memory_type_index == info.memory_type_index,
            r.property_flags == info.property_flags,
            r.mapped == host_visible(info.property_flags),
    {
        Arc::new(Memory {
            handle,
            device,
            size: info.allocation_size,
            memory_type_index: info.memory_type_index,
            property_flags: info.property_flags,
            mapped: flags_contain(info.property_flags, MEMORY_PROPERTY_HOST_VISIBLE),
        })
    }

    /// Read access: the whole mapping is to be invalidated before its bytes are read.
    /// The caller must have waited on every fence that covers writers of this memory.
    pub fn read(&self) -> (r: Result<MemoryRead>)
        ensures
            r == read_result(self),
    {
        if self.mapped {
            Ok(MemoryRead { range: self.whole_range() })
        } else {
            Err(Error::UnsupportedOperation)
        }
    }

    /// Write access over the whole mapping, not yet flushed.
    pub fn write(&self) -> (r: Result<MemoryWrite>)
        ensures
            r == write_result(self),
    {
        if self.mapped {
            Ok(MemoryWrite { range: self.whole_range(), flushed: false })
        } else {
            Err(Error::UnsupportedOperation)
        }
    }

    fn whole_range(&self) -> (r: MappedMemoryRange)
        ensures
            r == whole_range(self),
    {
        MappedMemoryRange { memory: self.handle, offset: 0, size: self.size }
    }
}

impl MemoryWrite {
    /// Flushes now: returns the range to flush, and no flush is left for release.
    pub fn flush(&mut self) -> (r: MappedMemoryRange)
        ensures
            r == old(self).range,
            *final(self) == after_flush(*old(self)),
    {
        self.flushed = true;
        self.range
    }

    /// Ends write access: returns the range still to flush, if an explicit flush has
    /// not already covered it.
    pub fn release(self) -> (r: Option<MappedMemoryRange>)
        ensures
            r == release_flush(self),
    {
        if self.flushed {
            None
        } else {
            Some(self.range)
        }
    }
}

/// A write guard flushes its mapping exactly once: released untouched it issues the
/// flush itself, and after an explicit flush (or several) release issues none.
pub proof fn lemma_write_guard_flushes_once(w: MemoryWrite)
    requires
        !w.flushed,
    ensures
        release_flush(w) == Some(w.range),
        after_flush(w).range == w.range,
        release_flush(after_flush(w)) is None,
        after_flush(after_flush(w)) == after_flush(w),
{
}

/// A guard on memory whose chosen type is not host-visible is refused: memory made
/// from such allocate info is never mapped, so both `read` and `write` give
/// `UnsupportedOperation`.
pub proof fn lemma_guard_needs_host_visible(info: MemoryAllocateInfo, memory: Memory)
    requires
        memory.mapped == host_visible(info.property_flags),
        !contains_flags(info.property_flags, MEMORY_PROPERTY_HOST_VISIBLE),
    ensures
        read_result(&memory) == Err::<MemoryRead, Error>(Error::UnsupportedOperation),
        write_result(&memory) == Err::<MemoryWrite, Error>(Error::UnsupportedOperation),
{
}

} // verus!
