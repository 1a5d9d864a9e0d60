//! The system configuration that the host driver hands to the hypervisor: a
//! packed, little-endian descriptor followed by the memory regions of the root
//! cell.

use vstd::prelude::*;
use crate::error::{hv_result_err, HvErrorNum, HvResult};
use crate::memory::MemFlags;
use crate::wire::{le_u16, le_u32, le_u64, read_u16, read_u32, read_u64};

verus! {

/// The revision of the configuration format that this crate reads.
pub const CONFIG_REVISION: u16 = 13;

/// Longest cell name, not counting the NUL that ends it.
pub const HV_CELL_NAME_MAXLEN: usize = 31;

/// Size of a packed memory region record, in bytes.
pub const MEMORY_REGION_SIZE: usize = 32;

/// Size of a packed cell descriptor, in bytes.
pub const CELL_DESC_SIZE: usize = 48;

/// Size of the packed system configuration without its tail, in bytes.
pub const SYSTEM_CONFIG_SIZE: usize = 120;

/// The tag that opens a system configuration: the ASCII text `RVMSYS`.
pub open spec fn config_signature() -> Seq<u8> {
    seq![0x52u8, 0x56u8, 0x4du8, 0x53u8, 0x59u8, 0x53u8]
}

/// The descriptor of a cell: its name and the number of region records that
/// follow the descriptor.
#[derive(Clone, Copy, Debug, PartialEq, Eq)]
pub struct HvCellDesc {
    pub signature: [u8; 6],
    pub revision: u16,
    pub name: [u8; 32],
    /// Set by the host driver.
    pub id: u32,
    pub num_memory_regions: u32,
}

/// A region of memory and the access rights to it.
#[derive(Clone, Copy, Debug, PartialEq, Eq, Structural)]
pub struct HvMemoryRegion {
    pub phys_start: u64,
    pub virt_start: u64,
    pub size: u64,
    pub flags: MemFlags,
}

/// General descriptor of the system.
#[derive(Clone, Copy, Debug, PartialEq, Eq)]
pub struct HvSystemConfig {
    pub signature: [u8; 6],
    pub revision: u16,
    /// Where the hypervisor lies in memory.
    pub hypervisor_memory: HvMemoryRegion,
    /// Where the real-time workload lies in memory.
    pub rtos_memory: HvMemoryRegion,
    pub root_cell: HvCellDesc,
}

/// A cell descriptor together with the bytes that follow it, which hold the
/// cell's region records.
#[derive(Clone, Copy, Debug)]
pub struct CellConfig<'a> {
    desc: &'a HvCellDesc,
    tail: &'a [u8],
}

/// Whether `region` is what the 32 bytes of `s` at `off` encode.
pub open spec fn region_at(region: HvMemoryRegion, s: Seq<u8>, off: int) -> bool {
    &&& region.phys_start == le_u64(s, off)
    &&& region.virt_start == le_u64(s, off + 8)
    &&& region.size == le_u64(s, off + 16)
    &&& region.flags@ == le_u64(s, off + 24)
}

/// Whether `desc` is what the 48 bytes of `s` at `off` encode.
pub open spec fn cell_desc_at(desc: HvCellDesc, s: Seq<u8>, off: int) -> bool {
    &&& desc.signature@ == s.subrange(off, off + 6)
    &&& desc.revision == le_u16(s, off + 6)
    &&& desc.name@ == s.subrange(off + 8, off + 40)
    &&& desc.id == le_u32(s, off + 40)
    &&& desc.num_memory_regions == le_u32(s, off + 44)
}

fn read_signature(bytes: &[u8], off: usize) -> (signature: [u8; 6])
    requires
        off + 6 <= bytes.len(),
    ensures
        signature@ == bytes@.subrange(off as int, off + 6),
{
    let mut signature: [u8; 6] = [0u8; 6];
    let mut i: usize = 0;
    while i < 6
        invariant
            i <= 6,
            off + 6 <= bytes.len(),
            forall|j: int| 0 <= j < i ==> signature@[j] == bytes@[off + j],
        decreases 6 - i,
    {
        signature[i] = bytes[off + i];
        i += 1;
    }
    assert(signature@ =~= bytes@.subrange(off as int, off + 6));
    signature
}

fn read_name(bytes: &[u8], off: usize) -> (name: [u8; 32])
    requires
        off + 32 <= bytes.len(),
    ensures
        name@ == bytes@.subrange(off as int, off + 32),
{
    let mut name: [u8; 32] = [0u8; 32];
    let mut i: usize = 0;
    while i < 32
        invariant
            i <= 32,
            off + 32 <= bytes.len(),
            forall|j: int| 0 <= j < i ==> name@[j] == bytes@[off + j],
        decreases 32 - i,
    {
        name[i] = bytes[off + i];
        i += 1;
    }
    assert(name@ =~= bytes@.subrange(off as int, off + 32));
    name
}

impl HvMemoryRegion {
    /// Reads the region record packed at `off`, whatever the alignment of `off`.
    pub fn read(bytes: &[u8], off: usize) -> (region: HvMemoryRegion)
        requires
            off + MEMORY_REGION_SIZE <= bytes.len(),
        ensures
            region_at(region, bytes@, off as int),
    {
        HvMemoryRegion {
            phys_start: read_u64(bytes, off),
            virt_start: read_u64(bytes, off + 8),
            size: read_u64(bytes, off + 16),
            flags: MemFlags::from_bits(read_u64(bytes, off + 24)),
        }
    }
}

impl HvCellDesc {
    /// Reads the cell descriptor packed at `off`.
    pub fn read(bytes: &[u8], off: usize) -> (desc: HvCellDesc)
        requires
            off + CELL_DESC_SIZE <= bytes.len(),
        ensures
            cell_desc_at(desc, bytes@, off as int),
    {
        HvCellDesc {
            signature: read_signature(bytes, off),
            revision: read_u16(bytes, off + 6),
            name: read_name(bytes, off + 8),
            id: read_u32(bytes, off + 40),
            num_memory_regions: read_u32(bytes, off + 44),
        }
    }

    /// The configuration of the cell, whose region records are the first
    /// `config_size()` bytes of `tail`. A tail too short to hold them gives none.
    pub fn config<'a>(&'a self, tail: &'a [u8]) -> (config: Option<CellConfig<'a>>)
        ensures
            config is Some <==> tail.len() >= self.config_size(),
            config matches Some(c) ==> c.desc() == *self && c.tail() == tail@,
    {
        CellConfig::from(self, tail)
    }

    /// Size of the region records that follow the descriptor, in bytes.
    pub open spec fn spec_config_size(&self) -> u64 {
        (self.num_memory_regions * MEMORY_REGION_SIZE) as u64
    }

    #[verifier::when_used_as_spec(spec_config_size)]
    pub fn config_size(&self) -> (size: u64)
        ensures
            size == self.num_memory_regions * MEMORY_REGION_SIZE,
            size == self.spec_config_size(),
    {
        self.num_memory_regions as u64 * MEMORY_REGION_SIZE as u64
    }

    /// Length of the cell's name: the number of bytes before the first NUL, or
    /// the whole field where it holds none.
    pub fn name_len(&self) -> (len: usize)
        ensures
            len <= 32,
            forall|i: int| 0 <= i < len ==> self.name@[i] != 0,
            len < 32 ==> self.name@[len as int] == 0,
    {
        let mut len: usize = 0;
        while len < 32 && self.name[len] != 0
            invariant
                len <= 32,
                forall|i: int| 0 <= i < len ==> self.name@[i] != 0,
            decreases 32 - len,
        {
            len += 1;
        }
        len
    }
}

impl HvSystemConfig {
    /// Reads the fixed part of the configuration from the packed,
    /// little-endian bytes of `blob`. A blob shorter than that part holds none.
    pub fn get(blob: &[u8]) -> (config: Option<HvSystemConfig>)
        ensures
            config is Some <==> blob.len() >= SYSTEM_CONFIG_SIZE,
            config matches Some(c) ==> {
                &&& c.signature@ == blob@.subrange(0, 6)
                &&& c.revision == le_u16(blob@, 6)
                &&& region_at(c.hypervisor_memory, blob@, 8)
                &&& region_at(c.rtos_memory, blob@, 40)
                &&& cell_desc_at(c.root_cell, blob@, 72)
            },
    {
        if blob.len() < SYSTEM_CONFIG_SIZE {
            return None;
        }
        Some(
            HvSystemConfig {
                signature: read_signature(blob, 0),
                revision: read_u16(blob, 6),
                hypervisor_memory: HvMemoryRegion::read(blob, 8),
                rtos_memory: HvMemoryRegion::read(blob, 40),
                root_cell: HvCellDesc::read(blob, 72),
            },
        )
    }

    /// Size of the whole configuration, region records included, in bytes.
    pub open spec fn spec_size(&self) -> u64 {
        (SYSTEM_CONFIG_SIZE + self.root_cell.num_memory_regions * MEMORY_REGION_SIZE) as u64
    }

    #[verifier::when_used_as_spec(spec_size)]
    pub fn size(&self) -> (size: u64)
        ensures
            size == SYSTEM_CONFIG_SIZE + self.root_cell.num_memory_regions * MEMORY_REGION_SIZE,
            size == self.spec_size(),
    {
        SYSTEM_CONFIG_SIZE as u64 + self.root_cell.config_size()
    }

    /// Whether the configuration carries the expected signature and revision.
    pub open spec fn valid(&self) -> bool {
        self.signature@ == config_signature() && self.revision == CONFIG_REVISION
    }

    /// Accepts the configuration if its signature and revision are the ones this
    /// crate reads, and rejects it as an invalid argument otherwise.
    pub fn check(&self) -> (r: HvResult)
        ensures
            r is Ok <==> self.valid(),
            r matches Err(e) ==> e.num == HvErrorNum::EINVAL,
    {
        let s = &self.signature;
        let signature_matches = s[0] == 0x52 && s[1] == 0x56 && s[2] == 0x4d && s[3] == 0x53
            && s[4] == 0x59 && s[5] == 0x53;
        proof {
            if signature_matches {
                assert(self.signature@ =~= config_signature());
            }
        }
        if !signature_matches {
            return hv_result_err(HvErrorNum::EINVAL);
        }
        if self.revision != CONFIG_REVISION {
            return hv_result_err(HvErrorNum::EINVAL);
        }
        Ok(())
    }
}

impl<'a> CellConfig<'a> {
    #[verifier::type_invariant]
    spec fn inv(self) -> bool {
        self.tail@.len() >= self.desc.num_memory_regions * MEMORY_REGION_SIZE
    }

    /// The descriptor of the cell.
    pub closed spec fn desc(self) -> HvCellDesc {
        *self.desc
    }

    /// The bytes that follow the descriptor.
    pub closed spec fn tail(self) -> Seq<u8> {
        self.tail@
    }

    pub(crate) fn from(desc: &'a HvCellDesc, tail: &'a [u8]) -> (config: Option<CellConfig<'a>>)
        ensures
            config is Some <==> tail.len() >= desc.config_size(),
            config matches Some(c) ==> c.desc() == *desc && c.tail() == tail@,
    {
        if (tail.len() as u64) < desc.config_size() {
            None
        } else {
            Some(CellConfig { desc, tail })
        }
    }

    /// Size of the cell's region records, in bytes.
    pub fn size(&self) -> (size: u64)
        ensures
            size == self.desc().config_size(),
    {
        self.desc.config_size()
    }

    /// The memory regions of the cell, in the order of their records.
    pub fn mem_regions(&self) -> (regions: Vec<HvMemoryRegion>)
        ensures
            regions.len() == self.desc().num_memory_regions,
            forall|i: int|
                0 <= i < regions.len() ==> region_at(
                    #[trigger] regions[i],
                    self.tail(),
                    i * MEMORY_REGION_SIZE,
                ),
    {
        proof {
            use_type_invariant(self);
        }
        let count = self.desc.num_memory_regions as usize;
        let tail_len = self.tail.len();
        let mut regions: Vec<HvMemoryRegion> = Vec::new();
        let mut i: usize = 0;
        while i < count
            invariant
                i <= count,
                count == self.desc.num_memory_regions,
                tail_len == self.tail@.len(),
                tail_len >= count * MEMORY_REGION_SIZE,
                regions.len() == i,
                forall|j: int|
                    0 <= j < i ==> region_at(
                        #[trigger] regions[j],
                        self.tail@,
                        j * MEMORY_REGION_SIZE,
                    ),
            decreases count - i,
        {
            assert(0 <= i * MEMORY_REGION_SIZE && (i * MEMORY_REGION_SIZE) + MEMORY_REGION_SIZE
                <= count * MEMORY_REGION_SIZE) by (nonlinear_arith)
                requires
                    i < count,
                    MEMORY_REGION_SIZE == 32,
            ;
            regions.push(HvMemoryRegion::read(self.tail, i * MEMORY_REGION_SIZE));
            i += 1;
        }
        regions
    }
}

} // verus!
