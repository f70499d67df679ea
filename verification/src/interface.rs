use vstd::prelude::*;

use crate::dev::NvmeDev;
use crate::driver::{Nvme, Provider};
use crate::queue::NvmeQueue;
use crate::{DeviceError, DeviceResult};

verus! {

/// Controller Capabilities.
pub const NVME_REG_CAP: usize = 0x0000;
/// Version.
pub const NVME_REG_VS: usize = 0x0008;
/// Interrupt Mask Set.
pub const NVME_REG_INTMS: usize = 0x000c;
/// Interrupt Mask Clear.
pub const NVME_REG_INTMC: usize = 0x0010;
/// Controller Configuration.
pub const NVME_REG_CC: usize = 0x0014;
/// Controller Status.
pub const NVME_REG_CSTS: usize = 0x001c;
/// NVM Subsystem Reset.
pub const NVME_REG_NSSR: usize = 0x0020;
/// Admin Queue Attributes.
pub const NVME_REG_AQA: usize = 0x0024;
/// Admin Submission Queue Base Address.
pub const NVME_REG_ASQ: usize = 0x0028;
/// Admin Completion Queue Base Address.
pub const NVME_REG_ACQ: usize = 0x0030;
/// Controller Memory Buffer Location.
pub const NVME_REG_CMBLOC: usize = 0x0038;
/// Controller Memory Buffer Size.
pub const NVME_REG_CMBSZ: usize = 0x003c;
/// Boot Partition Information.
pub const NVME_REG_BPINFO: usize = 0x0040;
/// Boot Partition Read Select.
pub const NVME_REG_BPRSEL: usize = 0x0044;
/// Boot Partition Memory Buffer Location.
pub const NVME_REG_BPMBL: usize = 0x0048;
/// Controller Memory Buffer Memory Space Control.
pub const NVME_REG_CMBMSC: usize = 0x0050;
/// Controller Ready Timeouts.
pub const NVME_REG_CRTO: usize = 0x0068;
/// Persistent Memory Capabilities.
pub const NVME_REG_PMRCAP: usize = 0x0e00;
/// Persistent Memory Region Control.
pub const NVME_REG_PMRCTL: usize = 0x0e04;
/// Persistent Memory Region Status.
pub const NVME_REG_PMRSTS: usize = 0x0e08;
/// Persistent Memory Region Elasticity Buffer Size.
pub const NVME_REG_PMREBS: usize = 0x0e0c;
/// Persistent Memory Region Sustained Write Throughput.
pub const NVME_REG_PMRSWTP: usize = 0x0e10;
/// SQ 0 Tail Doorbell.
pub const NVME_REG_DBS: usize = 0x1000;

/// Depth of the admin submission queue and of the admin completion queue.
pub const ADMIN_QUEUE_DEPTH: u16 = 32;

/// Tail of the admin submission queue announced once the admin queue is set up.
pub const ADMIN_SQ_TAIL: u32 = 2;

/// Size in bytes of the one block that a read or a write transfers.
pub const BLOCK_SIZE: usize = 512;

/// The kinds of command that the driver places on a submission queue.
#[derive(Copy, Clone, Debug, PartialEq, Eq, Structural)]
pub enum NvmeCommand {
    NvmeRWCommand,
    NvmeCreateSq,
    NvmeCreateCq,
}

/// The controller registers, each at its offset from BAR0 (see `offset`).
#[derive(Copy, Clone, Debug, PartialEq, Eq, Structural)]
pub enum NvmeRegister {
    NvmeRegCap,
    NvmeRegVs,
    NvmeRegIntms,
    NvmeRegIntmc,
    NvmeRegCc,
    NvmeRegCsts,
    NvmeRegNssr,
    NvmeRegAqa,
    NvmeRegAsq,
    NvmeRegAcq,
    NvmeRegCmbloc,
    NvmeRegCmbsz,
    NvmeRegBpinfo,
    NvmeRegBprsel,
    NvmeRegBpmbl,
    NvmeRegCmbmsc,
    NvmeRegCrto,
    NvmeRegPmrcap,
    NvmeRegPmrctl,
    NvmeRegPmrsts,
    NvmeRegPmrebs,
    NvmeRegPmrswtp,
    NvmeRegDbs,
}

impl NvmeRegister {
    /// Offset of the register from BAR0.
    pub open spec fn spec_offset(self) -> usize {
        match self {
            NvmeRegister::NvmeRegCap => NVME_REG_CAP,
            NvmeRegister::NvmeRegVs => NVME_REG_VS,
            NvmeRegister::NvmeRegIntms => NVME_REG_INTMS,
            NvmeRegister::NvmeRegIntmc => NVME_REG_INTMC,
            NvmeRegister::NvmeRegCc => NVME_REG_CC,
            NvmeRegister::NvmeRegCsts => NVME_REG_CSTS,
            NvmeRegister::NvmeRegNssr => NVME_REG_NSSR,
            NvmeRegister::NvmeRegAqa => NVME_REG_AQA,
            NvmeRegister::NvmeRegAsq => NVME_REG_ASQ,
            NvmeRegister::NvmeRegAcq => NVME_REG_ACQ,
            NvmeRegister::NvmeRegCmbloc => NVME_REG_CMBLOC,
            NvmeRegister::NvmeRegCmbsz => NVME_REG_CMBSZ,
            NvmeRegister::NvmeRegBpinfo => NVME_REG_BPINFO,
            NvmeRegister::NvmeRegBprsel => NVME_REG_BPRSEL,
            NvmeRegister::NvmeRegBpmbl => NVME_REG_BPMBL,
            NvmeRegister::NvmeRegCmbmsc => NVME_REG_CMBMSC,
            NvmeRegister::NvmeRegCrto => NVME_REG_CRTO,
            NvmeRegister::NvmeRegPmrcap => NVME_REG_PMRCAP,
            NvmeRegister::NvmeRegPmrctl => NVME_REG_PMRCTL,
            NvmeRegister::NvmeRegPmrsts => NVME_REG_PMRSTS,
            NvmeRegister::NvmeRegPmrebs => NVME_REG_PMREBS,
            NvmeRegister::NvmeRegPmrswtp => NVME_REG_PMRSWTP,
            NvmeRegister::NvmeRegDbs => NVME_REG_DBS,
        }
    }

    /// The NVMe controller register map: each register's offset from BAR0; no two
    /// registers share an offset.
    pub proof fn lemma_register_map()
        ensures
            NvmeRegister::NvmeRegCap.spec_offset() == 0x0000,
            NvmeRegister::NvmeRegVs.spec_offset() == 0x0008,
            NvmeRegister::NvmeRegIntms.spec_offset() == 0x000c,
            NvmeRegister::NvmeRegIntmc.spec_offset() == 0x0010,
            NvmeRegister::NvmeRegCc.spec_offset() == 0x0014,
            NvmeRegister::NvmeRegCsts.spec_offset() == 0x001c,
            NvmeRegister::NvmeRegNssr.spec_offset() == 0x0020,
            NvmeRegister::NvmeRegAqa.spec_offset() == 0x0024,
            NvmeRegister::NvmeRegAsq.spec_offset() == 0x0028,
            NvmeRegister::NvmeRegAcq.spec_offset() == 0x0030,
            NvmeRegister::NvmeRegCmbloc.spec_offset() == 0x0038,
            NvmeRegister::NvmeRegCmbsz.spec_offset() == 0x003c,
            NvmeRegister::NvmeRegBpinfo.spec_offset() == 0x0040,
            NvmeRegister::NvmeRegBprsel.spec_offset() == 0x0044,
            NvmeRegister::NvmeRegBpmbl.spec_offset() == 0x0048,
            NvmeRegister::NvmeRegCmbmsc.spec_offset() == 0x0050,
            NvmeRegister::NvmeRegCrto.spec_offset() == 0x0068,
            NvmeRegister::NvmeRegPmrcap.spec_offset() == 0x0e00,
            NvmeRegister::NvmeRegPmrctl.spec_offset() == 0x0e04,
            NvmeRegister::NvmeRegPmrsts.spec_offset() == 0x0e08,
            NvmeRegister::NvmeRegPmrebs.spec_offset() == 0x0e0c,
            NvmeRegister::NvmeRegPmrswtp.spec_offset() == 0x0e10,
            NvmeRegister::NvmeRegDbs.spec_offset() == 0x1000,
            forall|a: NvmeRegister, b: NvmeRegister| a.spec_offset() == b.spec_offset() ==> a == b,
    {
    }

    /// Offset of the register from BAR0.
    pub fn offset(&self) -> (r: usize)
        ensures
            r == self.spec_offset(),
            *self == NvmeRegister::NvmeRegCap ==> r == 0x0000,
            *self == NvmeRegister::NvmeRegVs ==> r == 0x0008,
            *self == NvmeRegister::NvmeRegIntms ==> r == 0x000c,
            *self == NvmeRegister::NvmeRegIntmc ==> r == 0x0010,
            *self == NvmeRegister::NvmeRegCc ==> r == 0x0014,
            *self == NvmeRegister::NvmeRegCsts ==> r == 0x001c,
            *self == NvmeRegister::NvmeRegNssr ==> r == 0x0020,
            *self == NvmeRegister::NvmeRegAqa ==> r == 0x0024,
            *self == NvmeRegister::NvmeRegAsq ==> r == 0x0028,
            *self == NvmeRegister::NvmeRegAcq ==> r == 0x0030,
            *self == NvmeRegister::NvmeRegCmbloc ==> r == 0x0038,
            *self == NvmeRegister::NvmeRegCmbsz ==> r == 0x003c,
            *self == NvmeRegister::NvmeRegBpinfo ==> r == 0x0040,
            *self == NvmeRegister::NvmeRegBprsel ==> r == 0x0044,
            *self == NvmeRegister::NvmeRegBpmbl ==> r == 0x0048,
            *self == NvmeRegister::NvmeRegCmbmsc ==> r == 0x0050,
            *self == NvmeRegister::NvmeRegCrto ==> r == 0x0068,
            *self == NvmeRegister::NvmeRegPmrcap ==> r == 0x0e00,
            *self == NvmeRegister::NvmeRegPmrctl ==> r == 0x0e04,
            *self == NvmeRegister::NvmeRegPmrsts ==> r == 0x0e08,
            *self == NvmeRegister::NvmeRegPmrebs ==> r == 0x0e0c,
            *self == NvmeRegister::NvmeRegPmrswtp ==> r == 0x0e10,
            *self == NvmeRegister::NvmeRegDbs ==> r == 0x1000,
    {
        match self {
            NvmeRegister::NvmeRegCap => NVME_REG_CAP,
            NvmeRegister::NvmeRegVs => NVME_REG_VS,
            NvmeRegister::NvmeRegIntms => NVME_REG_INTMS,
            NvmeRegister::NvmeRegIntmc => NVME_REG_INTMC,
            NvmeRegister::NvmeRegCc => NVME_REG_CC,
            NvmeRegister::NvmeRegCsts => NVME_REG_CSTS,
            NvmeRegister::NvmeRegNssr => NVME_REG_NSSR,
            NvmeRegister::NvmeRegAqa => NVME_REG_AQA,
            NvmeRegister::NvmeRegAsq => NVME_REG_ASQ,
            NvmeRegister::NvmeRegAcq => NVME_REG_ACQ,
            NvmeRegister::NvmeRegCmbloc => NVME_REG_CMBLOC,
            NvmeRegister::NvmeRegCmbsz => NVME_REG_CMBSZ,
            NvmeRegister::NvmeRegBpinfo => NVME_REG_BPINFO,
            NvmeRegister::NvmeRegBprsel => NVME_REG_BPRSEL,
            NvmeRegister::NvmeRegBpmbl => NVME_REG_BPMBL,
            NvmeRegister::NvmeRegCmbmsc => NVME_REG_CMBMSC,
            NvmeRegister::NvmeRegCrto => NVME_REG_CRTO,
            NvmeRegister::NvmeRegPmrcap => NVME_REG_PMRCAP,
            NvmeRegister::NvmeRegPmrctl => NVME_REG_PMRCTL,
            NvmeRegister::NvmeRegPmrsts => NVME_REG_PMRSTS,
            NvmeRegister::NvmeRegPmrebs => NVME_REG_PMREBS,
            NvmeRegister::NvmeRegPmrswtp => NVME_REG_PMRSWTP,
            NvmeRegister::NvmeRegDbs => NVME_REG_DBS,
        }
    }
}

/// One 32-bit write to a controller register: the value and its absolute address.
#[derive(Copy, Clone, Debug, PartialEq, Eq, Structural)]
pub struct RegisterWrite {
    pub addr: usize,
    pub value: u32,
}

/// Value of the Admin Queue Attributes register: the completion queue size
/// in the upper 16 bits and the submission queue size in the lower 16 bits.
pub open spec fn aqa_value(sq_size: u16, cq_size: u16) -> u32 {
    (cq_size * 0x10000 + sq_size) as u32
}

/// Value of the Admin Queue Attributes register for the given queue size fields.
/// The controller reads each field 0's based: a field `n` means `n + 1` entries.
pub fn admin_queue_attributes(sq_size: u16, cq_size: u16) -> (aqa: u32)
    ensures
        aqa == aqa_value(sq_size, cq_size),
        aqa == cq_size * 0x10000 + sq_size,
        aqa & 0xffff == sq_size,
        aqa >> 16 == cq_size,
{
    let aqa = (cq_size as u32) << 16 | sq_size as u32;
    assert(aqa == cq_size * 0x10000 + sq_size && aqa & 0xffff == sq_size && aqa >> 16 == cq_size)
        by (bit_vector)
        requires
            aqa == (cq_size as u32) << 16 | sq_size as u32,
    ;
    aqa
}

/// Low 32 bits of an address.
pub open spec fn low32(x: usize) -> u32 {
    (x as int % 0x1_0000_0000) as u32
}

/// Bits 32 to 63 of an address.
pub open spec fn high32(x: usize) -> u32 {
    (x as int / 0x1_0000_0000) as u32
}

proof fn lemma_split_bounds(x: usize)
    ensures
        0 <= x as int % 0x1_0000_0000 < 0x1_0000_0000,
        0 <= x as int / 0x1_0000_0000 < 0x1_0000_0000,
{
    assert(x as u64 <= 0xffff_ffff_ffff_ffffu64);
}

/// The low and high halves of a 64-bit register value.
fn split_address(x: usize) -> (r: (u32, u32))
    ensures
        r.0 == low32(x),
        r.1 == high32(x),
{
    let w = x as u64;
    let lo = w as u32;
    let hi = (w >> 32) as u32;
    assert(lo as u64 == w % 0x1_0000_0000u64 && hi as u64 == w / 0x1_0000_0000u64) by (bit_vector)
        requires
            lo == w as u32,
            hi == (w >> 32) as u32,
    ;
    proof {
        lemma_split_bounds(x);
    }
    (lo, hi)
}

/// The register writes that hand the admin queue to the controller, in order:
/// the 0's based queue sizes to AQA, the submission queue's DMA address to the
/// 64-bit ASQ (low half first), the completion queue's to the 64-bit ACQ (low half
/// first), and the submission queue tail to the queue 0 doorbell.
pub open spec fn admin_queue_setup_spec(bar: usize, sq_dma_pa: usize, cq_dma_pa: usize) -> Seq<
    RegisterWrite,
> {
    seq![
        RegisterWrite {
            addr: (bar + NVME_REG_AQA) as usize,
            value: aqa_value((ADMIN_QUEUE_DEPTH - 1) as u16, (ADMIN_QUEUE_DEPTH - 1) as u16),
        },
        RegisterWrite { addr: (bar + NVME_REG_ASQ) as usize, value: low32(sq_dma_pa) },
        RegisterWrite { addr: (bar + NVME_REG_ASQ + 4) as usize, value: high32(sq_dma_pa) },
        RegisterWrite { addr: (bar + NVME_REG_ACQ) as usize, value: low32(cq_dma_pa) },
        RegisterWrite { addr: (bar + NVME_REG_ACQ + 4) as usize, value: high32(cq_dma_pa) },
        RegisterWrite { addr: (bar + NVME_REG_DBS) as usize, value: ADMIN_SQ_TAIL },
    ]
}

/// The register writes that hand the admin queue, whose submission and completion
/// queues lie at the given DMA addresses, to the controller at `bar`.
pub fn admin_queue_setup(bar: usize, sq_dma_pa: usize, cq_dma_pa: usize) -> (writes: Vec<
    RegisterWrite,
>)
    requires
        bar + NVME_REG_DBS <= usize::MAX,
    ensures
        writes@ == admin_queue_setup_spec(bar, sq_dma_pa, cq_dma_pa),
{
    let aqa = admin_queue_attributes(ADMIN_QUEUE_DEPTH - 1, ADMIN_QUEUE_DEPTH - 1);
    let (sq_lo, sq_hi) = split_address(sq_dma_pa);
    let (cq_lo, cq_hi) = split_address(cq_dma_pa);
    let mut writes: Vec<RegisterWrite> = Vec::new();
    writes.push(RegisterWrite { addr: bar + NVME_REG_AQA, value: aqa });
    writes.push(RegisterWrite { addr: bar + NVME_REG_ASQ, value: sq_lo });
    writes.push(RegisterWrite { addr: bar + NVME_REG_ASQ + 4, value: sq_hi });
    writes.push(RegisterWrite { addr: bar + NVME_REG_ACQ, value: cq_lo });
    writes.push(RegisterWrite { addr: bar + NVME_REG_ACQ + 4, value: cq_hi });
    writes.push(RegisterWrite { addr: bar + NVME_REG_DBS, value: ADMIN_SQ_TAIL });
    writes
}

/// The admin queue setup writes, in this order, AQA, the two halves of ASQ, the two
/// halves of ACQ and the submission queue 0 tail doorbell, each at its offset from
/// BAR0. AQA declares both admin queues `ADMIN_QUEUE_DEPTH` entries deep (its fields
/// are 0's based), the halves of ASQ and ACQ put together give back the queues' DMA
/// addresses, and the doorbell gets the tail `ADMIN_SQ_TAIL`.
pub proof fn lemma_admin_setup_targets(bar: usize, sq_dma_pa: usize, cq_dma_pa: usize)
    requires
        bar + NVME_REG_DBS <= usize::MAX,
    ensures
        ({
            let w = admin_queue_setup_spec(bar, sq_dma_pa, cq_dma_pa);
            &&& w.len() == 6
            &&& w[0].addr == bar + NvmeRegister::NvmeRegAqa.spec_offset()
            &&& w[1].addr == bar + NvmeRegister::NvmeRegAsq.spec_offset()
            &&& w[2].addr == bar + NvmeRegister::NvmeRegAsq.spec_offset() + 4
            &&& w[3].addr == bar + NvmeRegister::NvmeRegAcq.spec_offset()
            &&& w[4].addr == bar + NvmeRegister::NvmeRegAcq.spec_offset() + 4
            &&& w[5].addr == bar + NvmeRegister::NvmeRegDbs.spec_offset()
            &&& (w[0].value & 0xffff) + 1 == ADMIN_QUEUE_DEPTH
            &&& (w[0].value >> 16) + 1 == ADMIN_QUEUE_DEPTH
            &&& w[1].value + w[2].value * 0x1_0000_0000 == sq_dma_pa
            &&& w[3].value + w[4].value * 0x1_0000_0000 == cq_dma_pa
            &&& w[5].value == ADMIN_SQ_TAIL
        }),
{
    let aqa = aqa_value((ADMIN_QUEUE_DEPTH - 1) as u16, (ADMIN_QUEUE_DEPTH - 1) as u16);
    assert(aqa == 0x1f_001f);
    assert(0x1f_001fu32 & 0xffff == 31 && 0x1f_001fu32 >> 16 == 31) by (bit_vector);
    lemma_split_bounds(sq_dma_pa);
    lemma_split_bounds(cq_dma_pa);
}

/// Create I/O Completion Queue command; 64 bytes in the controller's layout.
#[derive(Copy, Clone, Debug)]
pub struct NvmeCreateCq {
    pub opcode: u8,
    pub flags: u8,
    pub command_id: u16,
    pub rsvd1: [u32; 5],
    pub prp1: u64,
    pub rsvd8: u64,
    pub sqid: u16,
    pub qsize: u16,
    pub cq_flags: u16,
    pub irq_vector: u16,
    pub rsvd12: [u32; 4],
}

impl NvmeCreateCq {
    pub fn new_create_cq_command() -> (c: Self)
        ensures
            c.opcode == 0x04,
            c.flags == 0,
            c.command_id == 0,
            c.rsvd1@ == seq![0u32; 5],
            c.prp1 == 0,
            c.rsvd8 == 0,
            c.sqid == 0,
            c.qsize == 0,
            c.cq_flags == 0,
            c.irq_vector == 0,
            c.rsvd12@ == seq![0u32; 4],
    {
        NvmeCreateCq {
            opcode: 0x04,
            flags: 0,
            command_id: 0,
            rsvd1: [0u32; 5],
            prp1: 0,
            rsvd8: 0,
            sqid: 0,
            qsize: 0,
            cq_flags: 0,
            irq_vector: 0,
            rsvd12: [0u32; 4],
        }
    }
}

/// Create I/O Submission Queue command; 64 bytes in the controller's layout.
#[derive(Copy, Clone, Debug)]
pub struct NvmeCreateSq {
    pub opcode: u8,
    pub flags: u8,
    pub command_id: u16,
    pub rsvd1: [u32; 5],
    pub prp1: u64,
    pub rsvd8: u64,
    pub sqid: u16,
    pub qsize: u16,
    pub sq_flags: u16,
    pub cqid: u16,
    pub rsvd12: [u32; 4],
}

impl NvmeCreateSq {
    pub fn new_create_sq_command() -> (c: Self)
        ensures
            c.opcode == 0x05,
            c.flags == 0,
            c.command_id == 0,
            c.rsvd1@ == seq![0u32; 5],
            c.prp1 == 0,
            c.rsvd8 == 0,
            c.sqid == 0,
            c.qsize == 0,
            c.sq_flags == 0,
            c.cqid == 0,
            c.rsvd12@ == seq![0u32; 4],
    {
        NvmeCreateSq {
            opcode: 0x05,
            flags: 0,
            command_id: 0,
            rsvd1: [0u32; 5],
            prp1: 0,
            rsvd8: 0,
            sqid: 0,
            qsize: 0,
            sq_flags: 0,
            cqid: 0,
            rsvd12: [0u32; 4],
        }
    }
}

/// Read or Write command of the NVM command set.
#[derive(Copy, Clone, Debug, PartialEq, Eq, Structural)]
pub struct NvmeRWCommand {
    pub opcode: u8,
    pub flags: u8,
    pub command_id: u16,
    pub nsid: u32,
    pub rsvd2: u64,
    pub metadata: u64,
    pub prp1: u64,
    pub prp2: u64,
    pub slba: u64,
    pub length: u16,
    pub control: u16,
    pub dsmgmt: u32,
    pub reftag: u32,
    pub apptag: u16,
    pub appmask: u16,
}

impl NvmeRWCommand {
    /// The command has the given opcode and every other field zero.
    pub open spec fn is_blank_with_opcode(&self, opcode: u8) -> bool {
        &&& self.opcode == opcode
        &&& self.flags == 0
        &&& self.command_id == 0
        &&& self.nsid == 0
        &&& self.rsvd2 == 0
        &&& self.metadata == 0
        &&& self.prp1 == 0
        &&& self.prp2 == 0
        &&& self.slba == 0
        &&& self.length == 0
        &&& self.control == 0
        &&& self.dsmgmt == 0
        &&& self.reftag == 0
        &&& self.apptag == 0
        &&& self.appmask == 0
    }

    /// A Read command (opcode 0x02) with every other field zero.
    pub fn new_read_command() -> (c: Self)
        ensures
            c.is_blank_with_opcode(0x02),
    {
        Self {
            opcode: 0x02,
            flags: 0,
            command_id: 0,
            nsid: 0,
            rsvd2: 0,
            metadata: 0,
            prp1: 0,
            prp2: 0,
            slba: 0,
            length: 0,
            control: 0,
            dsmgmt: 0,
            reftag: 0,
            apptag: 0,
            appmask: 0,
        }
    }

    /// A Write command (opcode 0x01) with every other field zero.
    pub fn new_write_command() -> (c: Self)
        ensures
            c.is_blank_with_opcode(0x01),
    {
        Self {
            opcode: 0x01,
            flags: 0,
            command_id: 0,
            nsid: 0,
            rsvd2: 0,
            metadata: 0,
            prp1: 0,
            prp2: 0,
            slba: 0,
            length: 0,
            control: 0,
            dsmgmt: 0,
            reftag: 0,
            apptag: 0,
            appmask: 0,
        }
    }
}

/// One 16-byte completion queue entry, as two 8-byte words.
#[derive(Copy, Clone, Debug, PartialEq, Eq, Structural)]
pub struct NvmeCompleteQueue {
    pub byte8_1: u64,
    pub byte8_2: u64,
}

/// Opcode of the Write command of the NVM command set.
pub const NVME_CMD_WRITE: u8 = 0x01;

/// Opcode of the Read command of the NVM command set.
pub const NVME_CMD_READ: u8 = 0x02;

/// The namespace that block reads and writes address.
pub const NVME_NAMESPACE_ID: u32 = 1;

/// The Read or Write command (by `opcode`) of the one block `block_id` of the
/// namespace, whose data buffer is the DMA memory at physical address `data_pa`:
/// one block (`length` is 0's based), PRP1 alone locates the data, every other
/// field zero.
pub open spec fn block_command(opcode: u8, block_id: usize, data_pa: usize) -> NvmeRWCommand {
    NvmeRWCommand {
        opcode: opcode,
        flags: 0,
        command_id: 0,
        nsid: NVME_NAMESPACE_ID,
        rsvd2: 0,
        metadata: 0,
        prp1: data_pa as u64,
        prp2: 0,
        slba: block_id as u64,
        length: 0,
        control: 0,
        dsmgmt: 0,
        reftag: 0,
        apptag: 0,
        appmask: 0,
    }
}

/// The blocks of the namespace after the controller carries out `cmd`, whose data
/// buffer holds `payload`: a one-block Write of the namespace replaces the block it
/// names; any other command leaves the blocks as they are.
pub open spec fn namespace_after(disk: Seq<Seq<u8>>, cmd: NvmeRWCommand, payload: Seq<u8>) -> Seq<
    Seq<u8>,
> {
    if cmd.opcode == NVME_CMD_WRITE && cmd.nsid == NVME_NAMESPACE_ID && cmd.length == 0
        && cmd.slba < disk.len() {
        disk.update(cmd.slba as int, payload)
    } else {
        disk
    }
}

/// What the controller places in the data buffer of the one-block Read `cmd`.
pub open spec fn namespace_read(disk: Seq<Seq<u8>>, cmd: NvmeRWCommand) -> Seq<u8> {
    disk[cmd.slba as int]
}

/// The namespace blocks after the controller carries out the one-block command
/// `cmd` with host memory `mem` (buffer contents keyed by physical address): a
/// Write stores the buffer at its PRP1 in the block it names.
pub open spec fn controller_write(disk: Seq<Seq<u8>>, mem: Map<u64, Seq<u8>>, cmd: NvmeRWCommand) -> Seq<
    Seq<u8>,
> {
    if cmd.opcode == 0x01 && cmd.nsid == 1 && cmd.length == 0 && cmd.slba < disk.len()
        && mem.contains_key(cmd.prp1) {
        disk.update(cmd.slba as int, mem[cmd.prp1])
    } else {
        disk
    }
}

/// Host memory after the controller carries out the one-block command `cmd` on the
/// namespace blocks `disk`: a Read places the block it names in the buffer at its PRP1.
pub open spec fn controller_read(disk: Seq<Seq<u8>>, mem: Map<u64, Seq<u8>>, cmd: NvmeRWCommand) -> Map<
    u64,
    Seq<u8>,
> {
    if cmd.opcode == 0x02 && cmd.nsid == 1 && cmd.length == 0 && cmd.slba < disk.len() {
        mem.insert(cmd.prp1, disk[cmd.slba as int])
    } else {
        mem
    }
}

/// A one-block write for the controller: the command, and the bytes that are to be
/// in its data buffer when it is submitted.
pub struct BlockWrite {
    pub command: NvmeRWCommand,
    pub payload: Vec<u8>,
}

/// The block device interface of one NVMe controller.
pub struct NvmeInterface<P: Provider> {
    name: String,
    dev: NvmeDev,
    driver: Nvme<P>,
    irq: usize,
    admin_memory: Option<Nvme<P>>,
}

impl<P: Provider> NvmeInterface<P> {
    /// Name of the device.
    pub closed spec fn spec_name(&self) -> Seq<char> {
        self.name@
    }

    /// The device the interface drives.
    pub closed spec fn spec_dev(&self) -> NvmeDev {
        self.dev
    }

    /// The queue memory of the interrupt handler, whose data buffer block reads
    /// and writes go through.
    pub closed spec fn spec_driver(&self) -> Nvme<P> {
        self.driver
    }

    /// The interrupt line of the device.
    pub closed spec fn spec_irq(&self) -> usize {
        self.irq
    }

    /// The admin queue memory, once `init` has allocated it.
    pub closed spec fn spec_admin_memory(&self) -> Option<Nvme<P>> {
        self.admin_memory
    }

    /// The Read command of block `block_id` into the driver's data buffer.
    pub open spec fn read_command_spec(&self, block_id: usize) -> NvmeRWCommand {
        block_command(NVME_CMD_READ, block_id, self.spec_driver().data_dma_pa)
    }

    /// The Write command of block `block_id` from the driver's data buffer.
    pub open spec fn write_command_spec(&self, block_id: usize) -> NvmeRWCommand {
        block_command(NVME_CMD_WRITE, block_id, self.spec_driver().data_dma_pa)
    }

    /// `self` after `init(bar, ..)` returned `writes`, with `before` the interface
    /// `init` was called on: the admin queue memory is three fresh DMA regions and
    /// `writes` hand its queues to the controller at `bar`; nothing else changed.
    pub open spec fn initialized_from(&self, before: &Self, bar: usize, writes: Seq<RegisterWrite>) -> bool {
        &&& self.spec_name() == before.spec_name()
        &&& self.spec_dev() == before.spec_dev()
        &&& self.spec_driver() == before.spec_driver()
        &&& self.spec_irq() == before.spec_irq()
        &&& self.spec_admin_memory() matches Some(m) && m.is_allocated() && writes
            == admin_queue_setup_spec(bar, m.sq_dma_pa, m.cq_dma_pa)
    }

    /// Creates the interface of the controller at `bar` that raises `irq`, and
    /// the register writes that set up its admin queue (see `init`).
    pub fn new(irq: usize, bar: usize, len: usize) -> (r: DeviceResult<
        (NvmeInterface<P>, Vec<RegisterWrite>),
    >)
        requires
            bar + NVME_REG_DBS <= usize::MAX,
            Nvme::<P>::dma_region_size() <= usize::MAX,
        ensures
            match r {
                Ok((iface, writes)) => {
                    &&& iface.spec_name() == "nvme"@
                    &&& iface.spec_irq() == irq
                    &&& iface.spec_dev().admin_queue.is_fresh()
                    &&& iface.spec_dev().io_queues@.len() == 0
                    &&& iface.spec_dev().bar == bar
                    &&& iface.spec_driver().is_allocated()
                    &&& iface.spec_admin_memory() matches Some(m) && m.is_allocated() && writes@
                        == admin_queue_setup_spec(bar, m.sq_dma_pa, m.cq_dma_pa)
                },
                Err(_) => false,
            },
    {
        let dev = NvmeDev::new(bar);
        let driver = Nvme::<P>::new();
        let mut interface = NvmeInterface {
            name: "nvme".to_owned(),
            dev,
            driver,
            irq,
            admin_memory: None,
        };
        let writes = interface.init(bar, len)?;
        Ok((interface, writes))
    }

    /// Sets up the admin queue: allocates its data buffer, submission queue and
    /// completion queue, keeps them, and returns the register writes that hand the
    /// queues to the controller at `bar`, to be performed in order.
    pub fn init(&mut self, bar: usize, len: usize) -> (r: DeviceResult<Vec<RegisterWrite>>)
        requires
            bar + NVME_REG_DBS <= usize::MAX,
            Nvme::<P>::dma_region_size() <= usize::MAX,
        ensures
            match r {
                Ok(writes) => final(self).initialized_from(old(self), bar, writes@),
                Err(_) => false,
            },
    {
        let nvme: Nvme<P> = Nvme::new();
        let writes = admin_queue_setup(bar, nvme.sq_dma_pa, nvme.cq_dma_pa);
        self.admin_memory = Some(nvme);
        Ok(writes)
    }

    /// Name of the device.
    pub fn name(&self) -> (r: &str)
        ensures
            r@ == "nvme"@,
    {
        "nvme"
    }

    /// Handles interrupt `irq` if it is the device's own; others are ignored.
    pub fn handle_irq(&self, irq: usize) {
        if irq != self.irq {
            return ;
        }
        let _handled = self.driver.handle_interrupt();
    }

    /// The Read command of block `block_id`, to be submitted before `read_block`.
    pub fn read_command(&self, block_id: usize) -> (c: NvmeRWCommand)
        ensures
            c == self.read_command_spec(block_id),
            c.opcode == 0x02,
            c.flags == 0,
            c.command_id == 0,
            c.nsid == 1,
            c.rsvd2 == 0,
            c.metadata == 0,
            c.prp1 == self.spec_driver().data_dma_pa as u64,
            c.prp2 == 0,
            c.slba == block_id as u64,
            c.length == 0,
            c.control == 0,
            c.dsmgmt == 0,
            c.reftag == 0,
            c.apptag == 0,
            c.appmask == 0,
    {
        let mut c = NvmeRWCommand::new_read_command();
        c.nsid = NVME_NAMESPACE_ID;
        c.prp1 = self.driver.data_dma_pa as u64;
        c.prp2 = 0;
        c.slba = block_id as u64;
        c.length = 0;
        c
    }

    /// Completes the read of block `block_id` into `buf`, which holds exactly one
    /// block: `block` is what the controller placed in the data buffer for
    /// `read_command(block_id)`.
    pub fn read_block(&self, block_id: usize, buf: &mut [u8], block: &[u8]) -> (r: DeviceResult)
        requires
            old(buf)@.len() == BLOCK_SIZE,
            block@.len() == BLOCK_SIZE,
        ensures
            r == Ok::<(), DeviceError>(()),
            final(buf)@ == block@,
    {
        let mut i: usize = 0;
        while i < BLOCK_SIZE
            invariant
                buf@.len() == BLOCK_SIZE,
                block@.len() == BLOCK_SIZE,
                i <= BLOCK_SIZE,
                forall|j: int| 0 <= j < i ==> buf@[j] == block@[j],
            decreases BLOCK_SIZE - i,
        {
            buf[i] = block[i];
            i = i + 1;
        }
        assert(buf@ =~= block@);
        Ok(())
    }

    /// The write of `buf`, which holds exactly one block, to block `block_id`: the
    /// Write command and the bytes to place in the driver's data buffer before it
    /// is submitted.
    pub fn write_block(&self, block_id: usize, buf: &[u8]) -> (r: DeviceResult<BlockWrite>)
        requires
            buf@.len() == BLOCK_SIZE,
        ensures
            match r {
                Ok(w) => w.command == self.write_command_spec(block_id) && w.payload@ == buf@,
                Err(_) => false,
            },
            r is Ok,
            r->Ok_0.command.opcode == 0x01,
            r->Ok_0.command.flags == 0,
            r->Ok_0.command.command_id == 0,
            r->Ok_0.command.nsid == 1,
            r->Ok_0.command.rsvd2 == 0,
            r->Ok_0.command.metadata == 0,
            r->Ok_0.command.prp1 == self.spec_driver().data_dma_pa as u64,
            r->Ok_0.command.prp2 == 0,
            r->Ok_0.command.slba == block_id as u64,
            r->Ok_0.command.length == 0,
            r->Ok_0.command.control == 0,
            r->Ok_0.command.dsmgmt == 0,
            r->Ok_0.command.reftag == 0,
            r->Ok_0.command.apptag == 0,
            r->Ok_0.command.appmask == 0,
    {
        let mut c = NvmeRWCommand::new_write_command();
        c.nsid = NVME_NAMESPACE_ID;
        c.prp1 = self.driver.data_dma_pa as u64;
        c.prp2 = 0;
        c.slba = block_id as u64;
        c.length = 0;
        let mut payload: Vec<u8> = Vec::new();
        let mut i: usize = 0;
        while i < buf.len()
            invariant
                i <= buf@.len(),
                payload@ == buf@.subrange(0, i as int),
            decreases buf@.len() - i,
        {
            payload.push(buf[i]);
            i = i + 1;
        }
        assert(payload@ =~= buf@);
        Ok(BlockWrite { command: c, payload })
    }

    /// Read after write: once the controller has carried out the Write of `data` to
    /// block `block_id`, the Read of that block transfers `data`, and every other
    /// block keeps its contents. `disk` holds the blocks of the namespace.
    pub proof fn lemma_read_after_write(&self, disk: Seq<Seq<u8>>, block_id: usize, data: Seq<u8>)
        requires
            block_id < disk.len(),
        ensures
            ({
                let after = namespace_after(disk, self.write_command_spec(block_id), data);
                &&& after.len() == disk.len()
                &&& namespace_read(after, self.read_command_spec(block_id)) == data
                &&& forall|b: int| 0 <= b < disk.len() && b != block_id ==> after[b] == disk[b]
            }),
    {
    }

    /// Read after write through the data buffer: put `data` in the driver's data
    /// buffer and let the controller carry out the Write of block `block_id`; that
    /// block then holds `data` and no other block changed. Whatever host memory
    /// holds before the Read of that block, afterwards the driver's data buffer (the
    /// one `read_block` copies from) holds `data`, and no other buffer changed.
    pub proof fn lemma_read_after_write_through_data_buffer(
        &self,
        disk: Seq<Seq<u8>>,
        mem: Map<u64, Seq<u8>>,
        later: Map<u64, Seq<u8>>,
        block_id: usize,
        data: Seq<u8>,
    )
        requires
            block_id < disk.len(),
        ensures
            ({
                let buffer = self.spec_driver().data_dma_pa as u64;
                let disk2 = controller_write(
                    disk,
                    mem.insert(buffer, data),
                    self.write_command_spec(block_id),
                );
                let mem2 = controller_read(disk2, later, self.read_command_spec(block_id));
                &&& disk2.len() == disk.len()
                &&& disk2[block_id as int] == data
                &&& forall|b: int| 0 <= b < disk.len() && b != block_id ==> disk2[b] == disk[b]
                &&& mem2.contains_key(buffer)
                &&& mem2[buffer] == data
                &&& forall|a: u64| a != buffer && later.contains_key(a) ==> mem2.contains_key(a)
                    && mem2[a] == later[a]
            }),
    {
    }

    /// The Read and the Write command of a block name that block of namespace 1,
    /// one block long, with the driver's data buffer as their only data pointer.
    pub proof fn lemma_block_commands_use_data_buffer(&self, block_id: usize)
        ensures
            self.read_command_spec(block_id).opcode == 0x02,
            self.write_command_spec(block_id).opcode == 0x01,
            self.read_command_spec(block_id).prp1 == self.spec_driver().data_dma_pa as u64,
            self.write_command_spec(block_id).prp1 == self.spec_driver().data_dma_pa as u64,
            self.read_command_spec(block_id).prp2 == 0,
            self.write_command_spec(block_id).prp2 == 0,
            self.read_command_spec(block_id).slba == block_id as u64,
            self.write_command_spec(block_id).slba == block_id as u64,
            self.read_command_spec(block_id).nsid == 1,
            self.write_command_spec(block_id).nsid == 1,
            self.read_command_spec(block_id).length == 0,
            self.write_command_spec(block_id).length == 0,
    {
    }

    pub fn flush(&self) -> (r: DeviceResult)
        ensures
            r == Ok::<(), DeviceError>(()),
    {
        Ok(())
    }

    pub fn nvme_alloc_queue(&self, queue_id: usize, q_depth: usize) -> (r: DeviceResult)
        ensures
            r == Ok::<(), DeviceError>(()),
    {
        Ok(())
    }

    pub fn nvme_init_queue(&self, queue_id: usize, q_depth: usize) -> (r: DeviceResult)
        ensures
            r == Ok::<(), DeviceError>(()),
    {
        Ok(())
    }

    pub fn nvme_submit_sync_cmd(&mut self, cmd: NvmeCommand) -> (r: DeviceResult)
        ensures
            r == Ok::<(), DeviceError>(()),
            *final(self) == *old(self),
    {
        Ok(())
    }

    pub fn nvme_read_completion_status(&mut self, nvmeq: &mut NvmeQueue) -> (r: Option<usize>)
        ensures
            r == Some(0usize),
            *final(self) == *old(self),
            *final(nvmeq) == *old(nvmeq),
    {
        Some(0)
    }

    /// Stores `cmd` in the submission queue of `nvmeq` and returns the doorbell
    /// write that announces the new tail to the controller.
    pub fn nvme_submit_cmd(&mut self, nvmeq: &mut NvmeQueue, cmd: NvmeCommand) -> (db: RegisterWrite)
        ensures
            *final(self) == *old(self),
            final(nvmeq).sq@ == seq![cmd] + old(nvmeq).sq@,
            final(nvmeq).sq_tail == NvmeQueue::next_tail(old(nvmeq).sq_tail, old(nvmeq).q_depth),
            old(nvmeq).q_depth > 0 ==> final(nvmeq).sq_tail == (old(nvmeq).sq_tail + 1) % (old(nvmeq).q_depth as int),
            old(nvmeq).q_depth > 0 && old(nvmeq).sq_tail + 1 < old(nvmeq).q_depth ==> final(nvmeq).sq_tail == old(nvmeq).sq_tail + 1,
            old(nvmeq).q_depth > 0 && old(nvmeq).sq_tail + 1 == old(nvmeq).q_depth ==> final(nvmeq).sq_tail == 0,
            old(nvmeq).q_depth == 0 ==> final(nvmeq).sq_tail == old(nvmeq).sq_tail,
            final(nvmeq).same_except_sq(old(nvmeq)),
            db == (RegisterWrite { addr: old(nvmeq).q_db, value: final(nvmeq).sq_tail as u32 }),
    {
        nvmeq.sq_push(cmd);
        RegisterWrite { addr: nvmeq.q_db, value: nvmeq.sq_tail as u32 }
    }

    /// The interrupt line of the device.
    pub fn irq(&self) -> (r: usize)
        ensures
            r == self.spec_irq(),
    {
        self.irq
    }

    /// The device the interface drives.
    pub fn dev(&self) -> (r: &NvmeDev)
        ensures
            *r == self.spec_dev(),
    {
        &self.dev
    }

    /// The queue memory of the interrupt handler.
    pub fn driver(&self) -> (r: &Nvme<P>)
        ensures
            *r == self.spec_driver(),
    {
        &self.driver
    }

    /// The admin queue memory, once `init` has allocated it.
    pub fn admin_memory(&self) -> (r: &Option<Nvme<P>>)
        ensures
            *r == self.spec_admin_memory(),
    {
        &self.admin_memory
    }
}

} // verus!
