//! The fixed-layout header at the start of the hypervisor image.

use vstd::prelude::*;
use crate::error::{hv_result_err, HvErrorNum, HvResult};
use crate::wire::{le_u32, le_u64, read_u32, read_u64};

verus! {

/// The tag that opens a hypervisor image: the ASCII text `RVMIMAGE`.
pub open spec fn header_signature() -> Seq<u8> {
    seq![0x52u8, 0x56u8, 0x4du8, 0x49u8, 0x4du8, 0x41u8, 0x47u8, 0x45u8]
}

/// Size of the packed header, in bytes.
pub const HEADER_SIZE: usize = 40;

/// The image header: entry offset, per-CPU stride and the CPU counts.
#[derive(Clone, Copy, Debug, PartialEq, Eq)]
pub struct HvHeader {
    pub signature: [u8; 8],
    pub core_size: u64,
    pub percpu_size: u64,
    pub entry: u64,
    pub max_cpus: u32,
    pub rt_cpus: u32,
}

impl HvHeader {
    /// Reads the header from the packed, little-endian bytes of the image.
    /// An image shorter than the header holds none.
    pub fn get(image: &[u8]) -> (header: Option<HvHeader>)
        ensures
            header is Some <==> image.len() >= HEADER_SIZE,
            header matches Some(h) ==> {
                &&& h.signature@ == image@.subrange(0, 8)
                &&& h.core_size == le_u64(image@, 8)
                &&& h.percpu_size == le_u64(image@, 16)
                &&& h.entry == le_u64(image@, 24)
                &&& h.max_cpus == le_u32(image@, 32)
                &&& h.rt_cpus == le_u32(image@, 36)
            },
    {
        if image.len() < HEADER_SIZE {
            return None;
        }
        let mut signature: [u8; 8] = [0u8; 8];
        let mut i: usize = 0;
        while i < 8
            invariant
                i <= 8,
                image.len() >= HEADER_SIZE,
                forall|j: int| 0 <= j < i ==> signature@[j] == image@[j],
            decreases 8 - i,
        {
            signature[i] = image[i];
            i += 1;
        }
        assert(signature@ =~= image@.subrange(0, 8));
        Some(
            HvHeader {
                signature,
                core_size: read_u64(image, 8),
                percpu_size: read_u64(image, 16),
                entry: read_u64(image, 24),
                max_cpus: read_u32(image, 32),
                rt_cpus: read_u32(image, 36),
            },
        )
    }

    /// Accepts the header if it carries the signature of a hypervisor image, and
    /// rejects it as an invalid argument otherwise.
    pub fn check(&self) -> (r: HvResult)
        ensures
            r is Ok <==> self.signature@ == header_signature(),
            r matches Err(e) ==> e.num == HvErrorNum::EINVAL,
    {
        let s = &self.signature;
        let signature_matches = s[0] == 0x52 && s[1] == 0x56 && s[2] == 0x4d && s[3] == 0x49
            && s[4] == 0x4d && s[5] == 0x41 && s[6] == 0x47 && s[7] == 0x45;
        proof {
            if signature_matches {
                assert(self.signature@ =~= header_signature());
            }
        }
        if signature_matches {
            Ok(())
        } else {
            hv_result_err(HvErrorNum::EINVAL)
        }
    }

    /// Whether the header leaves a CPU to the guest. A header that does not is
    /// invalid, and worth a warning.
    pub open spec fn spec_leaves_vm_cpus(&self) -> bool {
        self.rt_cpus < self.max_cpus
    }

    #[verifier::when_used_as_spec(spec_leaves_vm_cpus)]
    pub fn leaves_vm_cpus(&self) -> (b: bool)
        ensures
            b == self.leaves_vm_cpus(),
    {
        self.rt_cpus < self.max_cpus
    }

    /// The number of CPUs that host the guest: all but the real-time ones.
    /// A header that reserves every CPU, or more, for real-time use is invalid:
    /// its CPUs are all treated as guest CPUs.
    pub open spec fn spec_vm_cpus(&self) -> u32 {
        if self.leaves_vm_cpus() {
            (self.max_cpus - self.rt_cpus) as u32
        } else {
            self.max_cpus
        }
    }

    #[verifier::when_used_as_spec(spec_vm_cpus)]
    pub fn vm_cpus(&self) -> (n: u32)
        ensures
            n == self.spec_vm_cpus(),
    {
        if self.leaves_vm_cpus() {
            self.max_cpus - self.rt_cpus
        } else {
            self.max_cpus
        }
    }
}

/// The number of guest CPUs of a header that leaves a CPU to the guest, or that
/// has no CPU at all, is what is left of its CPUs without the real-time ones.
pub proof fn lemma_vm_cpus_is_the_rest(header: HvHeader)
    requires
        header.leaves_vm_cpus() || header.max_cpus == 0,
    ensures
        header.vm_cpus() == vstd::math::max(0, header.max_cpus - header.rt_cpus),
{
}

/// A header never has more guest CPUs than CPUs, and a header with a CPU has a
/// guest CPU.
pub proof fn lemma_vm_cpus_bounds(header: HvHeader)
    ensures
        header.vm_cpus() <= header.max_cpus,
        header.max_cpus > 0 ==> header.vm_cpus() > 0,
{
}

} // verus!
