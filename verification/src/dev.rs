use vstd::prelude::*;
use crate::queue::NvmeQueue;

verus! {

/// An NVM Express device, one PCI function.
///
/// A device has exactly one admin queue and any number of I/O queues; each
/// queue is a submission queue together with a completion queue.
pub struct NvmeDev {
    /// The one admin queue of the device.
    pub admin_queue: NvmeQueue,
    /// The I/O queues, each with its own submission and completion queue.
    pub io_queues: Vec<NvmeQueue>,
    /// Base address register 0: where the controller's registers are mapped.
    pub bar: usize,
}

impl NvmeDev {
    pub fn new(bar: usize) -> (d: Self)
        ensures
            d.admin_queue.is_fresh(),
            d.io_queues@.len() == 0,
            d.bar == bar,
    {
        NvmeDev { admin_queue: NvmeQueue::new(), io_queues: Vec::new(), bar: bar }
    }
}

} // verus!
