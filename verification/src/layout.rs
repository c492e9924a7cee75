//! Where the two ring buffers lie in the memory that both cores can reach.
//!
//! ```text
//! 0x2003_8000   net -> app ring buffer   (14 KB)
//! 0x2003_B800   app -> net ring buffer   (14 KB)
//! 0x2003_F000   unused, up to 0x2003_FFFF
//! ```
//!
//! Each ring buffer starts with two 32-bit words and is payload from there on:
//!
//! ```text
//! offset 0   write index   (stored by the producer)
//! offset 4   read index    (stored by the consumer)
//! offset 8   payload bytes
//! ```
use vstd::prelude::*;

verus! {

/// First byte of the shared region.
pub const IPC_SHMEM_BASE: usize = 0x2003_8000;

/// First byte behind the shared region.
pub const IPC_SHMEM_END: usize = 0x2004_0000;

/// Bytes that one ring buffer takes up, header words included.
pub const RING_SPAN: usize = 14 * 1024;

/// Payload bytes of one ring buffer.
pub const RING_BUF_SIZE: usize = RING_SPAN - 8;

/// First byte of the net -> app ring buffer.
pub const N2A_BASE: usize = IPC_SHMEM_BASE;

/// First byte of the app -> net ring buffer.
pub const A2N_BASE: usize = IPC_SHMEM_BASE + 14 * 1024;

/// Start of the application core's RAM.
pub const APP_RAM_BASE: usize = 0x2000_0000;

/// Bytes of RAM that one region of the memory protection unit covers.
pub const SPU_REGION_SIZE: usize = 8 * 1024;

/// First protection region that is opened to the network core.
pub const SPU_FIRST_SHARED_REGION: usize = 28;

/// Last protection region that is opened to the network core.
pub const SPU_LAST_SHARED_REGION: usize = 31;

/// `base` is the start of one of the two ring buffers.
pub open spec fn is_ring_base(base: int) -> bool {
    base == N2A_BASE || base == A2N_BASE
}

/// The protection region that an address of the application core's RAM lies in.
pub open spec fn spu_region(address: int) -> int {
    (address - APP_RAM_BASE) / (SPU_REGION_SIZE as int)
}

/// Address of the word that holds the write index of the ring buffer at `base`.
pub fn rb_write_idx(base: usize) -> (address: usize)
    ensures
        address == base,
{
    base
}

/// Address of the word that holds the read index of the ring buffer at `base`.
pub fn rb_read_idx(base: usize) -> (address: usize)
    requires
        base + 4 <= usize::MAX,
    ensures
        address == base + 4,
{
    base + 4
}

/// Address of the first payload byte of the ring buffer at `base`.
pub fn rb_data(base: usize) -> (address: usize)
    requires
        base + 8 <= usize::MAX,
    ensures
        address == base + 8,
{
    base + 8
}

/// Both ring buffers lie in the shared region, and all of it is open to the
/// network core: every address of either ring is in one of the shared
/// protection regions.
pub proof fn law_rings_are_shared(base: int, offset: int)
    requires
        is_ring_base(base),
        0 <= offset < RING_SPAN,
    ensures
        IPC_SHMEM_BASE <= base + offset < IPC_SHMEM_END,
        SPU_FIRST_SHARED_REGION <= spu_region(base + offset) <= SPU_LAST_SHARED_REGION,
{
}

/// Where each byte of a ring buffer lies: the net -> app one fills 14 KB from the
/// start of the shared region on, and the app -> net one the 14 KB behind it. The
/// protection region of an address is found by counting 8 KB steps from the start
/// of the RAM.
pub proof fn law_ring_bytes_have_fixed_places(offset: int, address: int)
    requires
        0 <= offset < 14336,
        0x2000_0000 <= address,
    ensures
        is_ring_base(N2A_BASE as int) && is_ring_base(A2N_BASE as int),
        0x2003_8000 <= N2A_BASE + offset == 0x2003_8000 + offset < 0x2003_B800,
        0x2003_B800 <= A2N_BASE + offset == 0x2003_B800 + offset < 0x2003_F000,
        0x2000_0000 + 8192 * spu_region(address) <= address < 0x2000_0000 + 8192 * (spu_region(
            address,
        ) + 1),
        RING_BUF_SIZE == 14328,
{
}

/// The two ring buffers have no byte in common.
pub proof fn law_rings_are_disjoint(offset1: int, offset2: int)
    requires
        0 <= offset1 < RING_SPAN,
        0 <= offset2 < RING_SPAN,
    ensures
        N2A_BASE + offset1 != A2N_BASE + offset2,
{
}

/// The index words of a ring buffer are aligned to their size, and its payload
/// ends where the ring buffer ends.
pub proof fn law_ring_fields_fit(base: int)
    requires
        is_ring_base(base),
    ensures
        base % 4 == 0,
        (base + 4) % 4 == 0,
        (base + 8) + RING_BUF_SIZE == base + RING_SPAN,
{
}

} // verus!
