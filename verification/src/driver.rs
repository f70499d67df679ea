use vstd::prelude::*;
use std::marker::PhantomData;

verus! {

/// Size in bytes of one submission queue entry.
pub const NVME_COMMAND_SIZE: usize = 64;

/// Size in bytes of one completion queue entry.
pub const NVME_COMPLETION_SIZE: usize = 16;

/// Page size of the platform the driver runs on.
pub const PAGE_SIZE: usize = 4096;

/// The services that the host kernel offers the driver.
///
/// The kernel implements this trait; the driver only calls it.
pub trait Provider {
    /// Page size (usually 4K).
    const PAGE_SIZE: usize;

    /// `r` is `(virtual address, physical address)` of a region of `size` bytes of
    /// physically contiguous DMA memory that the kernel has handed out; what that
    /// means of the kernel's memory is for the implementation to say.
    spec fn dma_region(size: usize, r: (usize, usize)) -> bool;

    /// Allocates physically contiguous memory for DMA and returns
    /// `(virtual address, physical address)`; both addresses are page aligned.
    fn alloc_dma(size: usize) -> (r: (usize, usize))
        ensures
            Self::dma_region(size, r),
            Self::PAGE_SIZE > 0 ==> r.0 % Self::PAGE_SIZE == 0,
            Self::PAGE_SIZE > 0 ==> r.1 % Self::PAGE_SIZE == 0,
    ;

    /// Gives DMA memory back to the kernel.
    fn dealloc_dma(vaddr: usize, size: usize);
}

/// The DMA memory of one queue pair: the data buffer, the submission queue and
/// the completion queue, each known by its addresses.
pub struct Nvme<P: Provider> {
    pub provider: PhantomData<P>,
    pub sq_dma_pa: usize,
    pub cq_dma_pa: usize,
    pub data_dma_pa: usize,
    pub data_va: usize,
    pub sq_va: usize,
    pub cq_va: usize,
}

impl<P: Provider> Nvme<P> {
    /// Size in bytes of each of the three DMA regions.
    pub open spec fn dma_region_size() -> int {
        P::PAGE_SIZE * 2
    }

    /// Each region is one that `P` handed out for `dma_region_size()` bytes, page aligned.
    pub open spec fn is_allocated(&self) -> bool {
        &&& P::dma_region(Self::dma_region_size() as usize, (self.data_va, self.data_dma_pa))
        &&& P::dma_region(Self::dma_region_size() as usize, (self.sq_va, self.sq_dma_pa))
        &&& P::dma_region(Self::dma_region_size() as usize, (self.cq_va, self.cq_dma_pa))
        &&& P::PAGE_SIZE > 0 ==> self.data_va % P::PAGE_SIZE == 0
        &&& P::PAGE_SIZE > 0 ==> self.data_dma_pa % P::PAGE_SIZE == 0
        &&& P::PAGE_SIZE > 0 ==> self.sq_va % P::PAGE_SIZE == 0
        &&& P::PAGE_SIZE > 0 ==> self.sq_dma_pa % P::PAGE_SIZE == 0
        &&& P::PAGE_SIZE > 0 ==> self.cq_va % P::PAGE_SIZE == 0
        &&& P::PAGE_SIZE > 0 ==> self.cq_dma_pa % P::PAGE_SIZE == 0
    }

    /// Builds the queue pair from three allocations, each given as
    /// `(virtual address, physical address)`.
    pub fn from_dma(data: (usize, usize), sq: (usize, usize), cq: (usize, usize)) -> (r: Self)
        ensures
            r.data_va == data.0,
            r.data_dma_pa == data.1,
            r.sq_va == sq.0,
            r.sq_dma_pa == sq.1,
            r.cq_va == cq.0,
            r.cq_dma_pa == cq.1,
    {
        Nvme {
            provider: PhantomData,
            sq_dma_pa: sq.1,
            cq_dma_pa: cq.1,
            data_dma_pa: data.1,
            data_va: data.0,
            sq_va: sq.0,
            cq_va: cq.0,
        }
    }

    /// Allocates the data buffer, the submission queue and the completion
    /// queue, two pages each, in that order.
    pub fn new() -> (r: Self)
        requires
            Self::dma_region_size() <= usize::MAX,
        ensures
            r.is_allocated(),
    {
        let size = P::PAGE_SIZE * 2;
        let data = P::alloc_dma(size);
        let sq = P::alloc_dma(size);
        let cq = P::alloc_dma(size);
        Self::from_dma(data, sq, cq)
    }

    /// Number of submission queue entries that fit in one queue region.
    pub fn sq_entries() -> (r: usize)
        requires
            Self::dma_region_size() <= usize::MAX,
        ensures
            r == Self::dma_region_size() / (NVME_COMMAND_SIZE as int),
            r * NVME_COMMAND_SIZE <= Self::dma_region_size(),
    {
        (P::PAGE_SIZE * 2) / NVME_COMMAND_SIZE
    }

    /// Number of completion queue entries that fit in one queue region.
    pub fn cq_entries() -> (r: usize)
        requires
            Self::dma_region_size() <= usize::MAX,
        ensures
            r == Self::dma_region_size() / (NVME_COMPLETION_SIZE as int),
            r * NVME_COMPLETION_SIZE <= Self::dma_region_size(),
    {
        (P::PAGE_SIZE * 2) / NVME_COMPLETION_SIZE
    }

    /// Acknowledges an interrupt of the device; every interrupt is handled.
    pub fn handle_interrupt(&self) -> (handled: bool)
        ensures
            handled,
    {
        true
    }
}

} // verus!
