use nvme_driver::dev::NvmeDev;
use nvme_driver::driver::{Nvme, Provider, NVME_COMMAND_SIZE, NVME_COMPLETION_SIZE, PAGE_SIZE};
use nvme_driver::interface::{
    admin_queue_attributes, admin_queue_setup, NvmeCompleteQueue, NvmeCreateCq, NvmeCreateSq,
    NvmeRegister, RegisterWrite, ADMIN_QUEUE_DEPTH, ADMIN_SQ_TAIL, BLOCK_SIZE, NVME_REG_ACQ,
    NVME_REG_AQA, NVME_REG_ASQ, NVME_REG_CAP, NVME_REG_CC, NVME_REG_CSTS, NVME_REG_DBS,
    NVME_REG_PMRSWTP, NVME_REG_VS, NVME_CMD_READ, NVME_CMD_WRITE, NVME_NAMESPACE_ID,
};
use nvme_driver::{NvmeCommand, NvmeInterface, NvmeQueue, NvmeRWCommand};

/// A kernel stand-in that hands out one fixed DMA region of the requested size:
/// virtual address 0xffff_ffc0_8000_0000 + size, physical 0x8000_0000 + size.
struct FixedProvider;

impl Provider for FixedProvider {
    const PAGE_SIZE: usize = 4096;

    // The predicate is read by the verifier only; every region this provider hands out qualifies.
    fn dma_region(_size: usize, _r: (usize, usize)) -> bool {
        true
    }

    fn alloc_dma(size: usize) -> (usize, usize) {
        (0xffff_ffc0_8000_0000 + size, 0x8000_0000 + size)
    }

    fn dealloc_dma(_vaddr: usize, _size: usize) {}
}

const BAR: usize = 0x4000_0000;
const DMA_PA: usize = 0x8000_0000 + 2 * 4096;
const DMA_VA: usize = 0xffff_ffc0_8000_0000 + 2 * 4096;

fn assert_fresh(q: &NvmeQueue) {
    assert!(q.sq.is_empty());
    assert!(q.cq.is_empty());
    assert_eq!(q.q_db, 0);
    assert_eq!(q.q_depth, 0);
    assert_eq!(q.cq_vector, 0);
    assert_eq!(q.sq_head, 0);
    assert_eq!(q.sq_tail, 0);
    assert_eq!(q.qid, 0);
}

#[test]
fn queue_new_is_empty() {
    let q = NvmeQueue::new();
    assert_fresh(&q);
}

#[test]
fn sq_push_places_command_at_front() {
    let mut q = NvmeQueue::new();
    q.q_depth = 32;
    q.sq_tail = 3;
    q.cq.push_back(NvmeCommand::NvmeCreateCq);
    q.sq_push(NvmeCommand::NvmeCreateSq);
    q.sq_push(NvmeCommand::NvmeRWCommand);
    let sq: Vec<NvmeCommand> = q.sq.iter().copied().collect();
    assert_eq!(sq, vec![NvmeCommand::NvmeRWCommand, NvmeCommand::NvmeCreateSq]);
    let cq: Vec<NvmeCommand> = q.cq.iter().copied().collect();
    assert_eq!(cq, vec![NvmeCommand::NvmeCreateCq]);
    assert_eq!(q.q_depth, 32);
    assert_eq!(q.sq_tail, 5);
    assert_eq!(q.sq_head, 0);
}

#[test]
fn sq_push_wraps_tail_at_depth() {
    let mut q = NvmeQueue::new();
    q.q_depth = 4;
    q.sq_tail = 3;
    q.sq_push(NvmeCommand::NvmeRWCommand);
    assert_eq!(q.sq_tail, 0);
    q.sq_push(NvmeCommand::NvmeRWCommand);
    assert_eq!(q.sq_tail, 1);
}

#[test]
fn sq_push_keeps_tail_of_queue_without_slots() {
    let mut q = NvmeQueue::new();
    q.sq_tail = 7;
    q.sq_push(NvmeCommand::NvmeCreateCq);
    assert_eq!(q.sq_tail, 7);
    assert_eq!(q.sq.len(), 1);
}

#[test]
fn dev_new_has_fresh_admin_queue_and_no_io_queue() {
    let d = NvmeDev::new(BAR);
    assert_fresh(&d.admin_queue);
    assert!(d.io_queues.is_empty());
    assert_eq!(d.bar, BAR);
}

#[test]
fn nvme_new_takes_two_pages_per_region() {
    let n: Nvme<FixedProvider> = Nvme::new();
    assert_eq!(n.sq_dma_pa, DMA_PA);
    assert_eq!(n.cq_dma_pa, DMA_PA);
    assert_eq!(n.data_dma_pa, DMA_PA);
    assert_eq!(n.data_va, DMA_VA);
    assert_eq!(n.sq_va, DMA_VA);
    assert_eq!(n.cq_va, DMA_VA);
    assert_eq!(n.sq_dma_pa % FixedProvider::PAGE_SIZE, 0);
}

#[test]
fn nvme_from_dma_keeps_each_region() {
    let n: Nvme<FixedProvider> = Nvme::from_dma((1, 2), (3, 4), (5, 6));
    assert_eq!(n.data_va, 1);
    assert_eq!(n.data_dma_pa, 2);
    assert_eq!(n.sq_va, 3);
    assert_eq!(n.sq_dma_pa, 4);
    assert_eq!(n.cq_va, 5);
    assert_eq!(n.cq_dma_pa, 6);
}

#[test]
fn nvme_handle_interrupt_handles_every_interrupt() {
    let n: Nvme<FixedProvider> = Nvme::new();
    assert!(n.handle_interrupt());
}

#[test]
fn sizes_of_queue_entries() {
    assert_eq!(NVME_COMMAND_SIZE, 64);
    assert_eq!(NVME_COMPLETION_SIZE, 16);
    assert_eq!(PAGE_SIZE, 4096);
}

#[test]
fn aqa_holds_cq_depth_high_and_sq_depth_low() {
    assert_eq!(admin_queue_attributes(32, 32), 0x0020_0020);
    assert_eq!(admin_queue_attributes(31, 31), 0x001f_001f);
    let aqa = admin_queue_attributes(0x1234, 0xabcd);
    assert_eq!(aqa, 0xabcd_1234);
    assert_eq!(aqa & 0xffff, 0x1234);
    assert_eq!(aqa >> 16, 0xabcd);
    assert_eq!(admin_queue_attributes(0, 0), 0);
    assert_eq!(admin_queue_attributes(u16::MAX, u16::MAX), u32::MAX);
}

#[test]
fn queue_entries_fit_in_two_pages() {
    assert_eq!(Nvme::<FixedProvider>::sq_entries(), 128);
    assert_eq!(Nvme::<FixedProvider>::cq_entries(), 512);
}

#[test]
fn admin_queue_setup_writes_registers_in_order() {
    let w = admin_queue_setup(BAR, 0x8000_2000, 0x8000_4000);
    assert_eq!(
        w,
        vec![
            RegisterWrite { addr: 0x4000_0024, value: 0x001f_001f },
            RegisterWrite { addr: 0x4000_0028, value: 0x8000_2000 },
            RegisterWrite { addr: 0x4000_002c, value: 0 },
            RegisterWrite { addr: 0x4000_0030, value: 0x8000_4000 },
            RegisterWrite { addr: 0x4000_0034, value: 0 },
            RegisterWrite { addr: 0x4000_1000, value: 2 },
        ]
    );
    assert_eq!(w[0].value, admin_queue_attributes(ADMIN_QUEUE_DEPTH - 1, ADMIN_QUEUE_DEPTH - 1));
    assert_eq!(w[5].value, ADMIN_SQ_TAIL);
}

#[test]
fn admin_queue_setup_writes_full_addresses_above_4g() {
    let bar: usize = 0x4_0000_0000;
    let w = admin_queue_setup(bar, 0x2_8000_2000, 0x3_8000_4000);
    assert_eq!(w[0].addr, 0x4_0000_0024);
    assert_eq!((w[1].addr, w[1].value), (0x4_0000_0028, 0x8000_2000));
    assert_eq!((w[2].addr, w[2].value), (0x4_0000_002c, 2));
    assert_eq!((w[3].addr, w[3].value), (0x4_0000_0030, 0x8000_4000));
    assert_eq!((w[4].addr, w[4].value), (0x4_0000_0034, 3));
    assert_eq!(w[5].addr, 0x4_0000_1000);
}

#[test]
fn register_offsets_match_constants() {
    assert_eq!(NvmeRegister::NvmeRegCap.offset(), NVME_REG_CAP);
    assert_eq!(NvmeRegister::NvmeRegVs.offset(), NVME_REG_VS);
    assert_eq!(NvmeRegister::NvmeRegCc.offset(), NVME_REG_CC);
    assert_eq!(NvmeRegister::NvmeRegCsts.offset(), NVME_REG_CSTS);
    assert_eq!(NvmeRegister::NvmeRegAqa.offset(), NVME_REG_AQA);
    assert_eq!(NvmeRegister::NvmeRegAsq.offset(), NVME_REG_ASQ);
    assert_eq!(NvmeRegister::NvmeRegAcq.offset(), NVME_REG_ACQ);
    assert_eq!(NvmeRegister::NvmeRegPmrswtp.offset(), NVME_REG_PMRSWTP);
    assert_eq!(NvmeRegister::NvmeRegDbs.offset(), NVME_REG_DBS);
    assert_eq!(NvmeRegister::NvmeRegAqa.offset(), 0x24);
    assert_eq!(NvmeRegister::NvmeRegAsq.offset(), 0x28);
    assert_eq!(NvmeRegister::NvmeRegAcq.offset(), 0x30);
    assert_eq!(NvmeRegister::NvmeRegDbs.offset(), 0x1000);
    assert_eq!(NvmeRegister::NvmeRegCmbmsc.offset(), 0x50);
    assert_eq!(NvmeRegister::NvmeRegCrto.offset(), 0x68);
    assert_eq!(NvmeRegister::NvmeRegPmrcap.offset(), 0xe00);
}

#[test]
fn create_cq_command_is_opcode_4_and_zero_elsewhere() {
    let c = NvmeCreateCq::new_create_cq_command();
    assert_eq!(c.opcode, 0x04);
    assert_eq!(c.flags, 0);
    assert_eq!(c.command_id, 0);
    assert_eq!(c.rsvd1, [0u32; 5]);
    assert_eq!(c.prp1, 0);
    assert_eq!(c.rsvd8, 0);
    assert_eq!(c.sqid, 0);
    assert_eq!(c.qsize, 0);
    assert_eq!(c.cq_flags, 0);
    assert_eq!(c.irq_vector, 0);
    assert_eq!(c.rsvd12, [0u32; 4]);
}

#[test]
fn create_sq_command_is_opcode_5_and_zero_elsewhere() {
    let c = NvmeCreateSq::new_create_sq_command();
    assert_eq!(c.opcode, 0x05);
    assert_eq!(c.flags, 0);
    assert_eq!(c.command_id, 0);
    assert_eq!(c.rsvd1, [0u32; 5]);
    assert_eq!(c.prp1, 0);
    assert_eq!(c.rsvd8, 0);
    assert_eq!(c.sqid, 0);
    assert_eq!(c.qsize, 0);
    assert_eq!(c.sq_flags, 0);
    assert_eq!(c.cqid, 0);
    assert_eq!(c.rsvd12, [0u32; 4]);
}

fn assert_blank_except_opcode(c: &NvmeRWCommand) {
    assert_eq!(c.flags, 0);
    assert_eq!(c.command_id, 0);
    assert_eq!(c.nsid, 0);
    assert_eq!(c.rsvd2, 0);
    assert_eq!(c.metadata, 0);
    assert_eq!(c.prp1, 0);
    assert_eq!(c.prp2, 0);
    assert_eq!(c.slba, 0);
    assert_eq!(c.length, 0);
    assert_eq!(c.control, 0);
    assert_eq!(c.dsmgmt, 0);
    assert_eq!(c.reftag, 0);
    assert_eq!(c.apptag, 0);
    assert_eq!(c.appmask, 0);
}

#[test]
fn read_command_is_opcode_2() {
    let c = NvmeRWCommand::new_read_command();
    assert_eq!(c.opcode, 0x02);
    assert_blank_except_opcode(&c);
}

#[test]
fn write_command_is_opcode_1() {
    let c = NvmeRWCommand::new_write_command();
    assert_eq!(c.opcode, 0x01);
    assert_blank_except_opcode(&c);
}

#[test]
fn completion_entry_is_two_words() {
    let e = NvmeCompleteQueue { byte8_1: 1, byte8_2: 2 };
    let f = e;
    assert_eq!(e, f);
    assert_eq!(f.byte8_2, 2);
}

fn new_interface() -> (NvmeInterface<FixedProvider>, Vec<RegisterWrite>) {
    match NvmeInterface::<FixedProvider>::new(0x21, BAR, 0x4000) {
        Ok(r) => r,
        Err(e) => panic!("unexpected error {:?}", e),
    }
}

#[test]
fn interface_new_names_device_and_sets_up_admin_queue() {
    let (iface, writes) = new_interface();
    assert_eq!(iface.name(), "nvme");
    assert_eq!(iface.irq(), 0x21);
    assert_eq!(iface.dev().bar, BAR);
    assert_fresh(&iface.dev().admin_queue);
    assert!(iface.dev().io_queues.is_empty());
    assert_eq!(iface.driver().sq_dma_pa, DMA_PA);
    assert_eq!(iface.driver().data_dma_pa, DMA_PA);
    let admin = iface.admin_memory().as_ref().expect("admin queue memory");
    assert_eq!(admin.sq_dma_pa, DMA_PA);
    assert_eq!(admin.cq_dma_pa, DMA_PA);
    assert_eq!(writes, admin_queue_setup(BAR, admin.sq_dma_pa, admin.cq_dma_pa));
}

#[test]
fn interface_init_keeps_name_irq_and_device() {
    let (mut iface, _) = new_interface();
    let writes = iface.init(BAR, 0x4000).unwrap();
    assert_eq!(writes.len(), 6);
    assert_eq!(writes[1], RegisterWrite { addr: BAR + NVME_REG_ASQ, value: DMA_PA as u32 });
    assert_eq!(writes[3], RegisterWrite { addr: BAR + NVME_REG_ACQ, value: DMA_PA as u32 });
    assert_eq!(iface.name(), "nvme");
    assert_eq!(iface.irq(), 0x21);
    assert_eq!(iface.dev().bar, BAR);
}

#[test]
fn interface_handles_own_and_foreign_irq() {
    let (iface, _) = new_interface();
    iface.handle_irq(0x21);
    iface.handle_irq(0x22);
    assert_eq!(iface.irq(), 0x21);
}

#[test]
fn read_command_names_block_and_data_buffer() {
    let (iface, _) = new_interface();
    let c = iface.read_command(9);
    assert_eq!(c.opcode, NVME_CMD_READ);
    assert_eq!(c.nsid, NVME_NAMESPACE_ID);
    assert_eq!(c.slba, 9);
    assert_eq!(c.length, 0);
    assert_eq!(c.prp1, DMA_PA as u64);
    assert_eq!(c.prp2, 0);
    assert_eq!(c.command_id, 0);
}

#[test]
fn read_block_copies_the_transferred_block() {
    let (iface, _) = new_interface();
    let mut buf = [7u8; BLOCK_SIZE];
    let mut block = [0u8; BLOCK_SIZE];
    for (i, b) in block.iter_mut().enumerate() {
        *b = (i % 251) as u8;
    }
    assert_eq!(iface.read_block(1, &mut buf, &block), Ok(()));
    assert_eq!(buf, block);
}

#[test]
fn write_block_hands_command_and_payload() {
    let (iface, _) = new_interface();
    let buf = [1u8; 512];
    let w = match iface.write_block(3, &buf) {
        Ok(w) => w,
        Err(e) => panic!("unexpected error {:?}", e),
    };
    assert_eq!(w.payload, buf.to_vec());
    assert_eq!(w.command.opcode, NVME_CMD_WRITE);
    assert_eq!(w.command.nsid, NVME_NAMESPACE_ID);
    assert_eq!(w.command.slba, 3);
    assert_eq!(w.command.length, 0);
    assert_eq!(w.command.prp1, DMA_PA as u64);
    assert_eq!(w.command.prp2, 0);
}

/// Carries out a one-block command as the controller does on `disk`.
fn device_execute(disk: &mut Vec<[u8; BLOCK_SIZE]>, cmd: &NvmeRWCommand, data: &mut [u8; BLOCK_SIZE]) {
    let b = cmd.slba as usize;
    if cmd.opcode == NVME_CMD_WRITE {
        disk[b] = *data;
    } else {
        *data = disk[b];
    }
}

#[test]
fn read_after_write_gives_back_the_written_block() {
    let (iface, _) = new_interface();
    let mut disk = vec![[0u8; BLOCK_SIZE]; 4];
    let mut dma = [0u8; BLOCK_SIZE];
    let w = iface.write_block(1, &[1u8; BLOCK_SIZE]).unwrap();
    dma.copy_from_slice(&w.payload);
    device_execute(&mut disk, &w.command, &mut dma);
    let mut read_buf = [0u8; BLOCK_SIZE];
    device_execute(&mut disk, &iface.read_command(1), &mut dma);
    assert_eq!(iface.read_block(1, &mut read_buf, &dma), Ok(()));
    assert_eq!(read_buf, [1u8; BLOCK_SIZE]);
    assert_eq!(disk[0], [0u8; BLOCK_SIZE]);
    assert_eq!(disk[2], [0u8; BLOCK_SIZE]);
}

#[test]
fn flush_and_queue_management_succeed() {
    let (mut iface, _) = new_interface();
    assert_eq!(iface.flush(), Ok(()));
    assert_eq!(iface.nvme_alloc_queue(1, 32), Ok(()));
    assert_eq!(iface.nvme_init_queue(1, 32), Ok(()));
    assert_eq!(iface.nvme_submit_sync_cmd(NvmeCommand::NvmeRWCommand), Ok(()));
    assert_eq!(iface.nvme_submit_sync_cmd(NvmeCommand::NvmeCreateSq), Ok(()));
    assert!(iface.dev().io_queues.is_empty());
    assert_fresh(&iface.dev().admin_queue);
    let mut q = NvmeQueue::new();
    assert_eq!(iface.nvme_read_completion_status(&mut q), Some(0));
    assert_fresh(&q);
}

#[test]
fn submit_cmd_stores_command_and_rings_doorbell() {
    let (mut iface, _) = new_interface();
    let mut q = NvmeQueue::new();
    q.qid = 1;
    q.q_depth = 2;
    q.q_db = BAR + NVME_REG_DBS + 8;
    let db = iface.nvme_submit_cmd(&mut q, NvmeCommand::NvmeCreateCq);
    assert_eq!(db, RegisterWrite { addr: BAR + 0x1008, value: 1 });
    let db = iface.nvme_submit_cmd(&mut q, NvmeCommand::NvmeCreateSq);
    assert_eq!(db, RegisterWrite { addr: BAR + 0x1008, value: 0 });
    let sq: Vec<NvmeCommand> = q.sq.iter().copied().collect();
    assert_eq!(sq, vec![NvmeCommand::NvmeCreateSq, NvmeCommand::NvmeCreateCq]);
    assert!(q.cq.is_empty());
    assert_eq!(q.qid, 1);
    assert_eq!(iface.irq(), 0x21);
}

#[test]
fn create_cq_command_bytes_follow_field_order() {
    let mut c = NvmeCreateCq::new_create_cq_command();
    c.command_id = 0x101b;
    c.prp1 = 0x1122_3344_5566_7788;
    c.sqid = 1;
    c.qsize = 0x03ff;
    c.cq_flags = 0x0003;
    c.irq_vector = 2;
    c.rsvd12[3] = 0xdead_beef;
    let b = c.to_bytes();
    assert_eq!(b.len(), NVME_COMMAND_SIZE);
    let mut expected = vec![0x04u8, 0, 0x1b, 0x10];
    expected.extend_from_slice(&[0u8; 20]);
    expected.extend_from_slice(&[0x88, 0x77, 0x66, 0x55, 0x44, 0x33, 0x22, 0x11]);
    expected.extend_from_slice(&[0u8; 8]);
    expected.extend_from_slice(&[0x01, 0x00, 0xff, 0x03, 0x03, 0x00, 0x02, 0x00]);
    expected.extend_from_slice(&[0u8; 12]);
    expected.extend_from_slice(&[0xef, 0xbe, 0xad, 0xde]);
    assert_eq!(b, expected);
}

#[test]
fn create_sq_command_bytes_follow_field_order() {
    let mut c = NvmeCreateSq::new_create_sq_command();
    c.command_id = 0x2018;
    c.rsvd1[0] = 0x0000_0001;
    c.prp1 = 0x8000_2000;
    c.sqid = 1;
    c.qsize = 0x03ff;
    c.sq_flags = 0x0001;
    c.cqid = 1;
    let b = c.to_bytes();
    assert_eq!(b.len(), 64);
    assert_eq!(&b[0..4], &[0x05, 0x00, 0x18, 0x20]);
    assert_eq!(&b[4..8], &[0x01, 0x00, 0x00, 0x00]);
    assert_eq!(&b[8..24], &[0u8; 16]);
    assert_eq!(&b[24..32], &[0x00, 0x20, 0x00, 0x80, 0, 0, 0, 0]);
    assert_eq!(&b[32..40], &[0u8; 8]);
    assert_eq!(&b[40..48], &[0x01, 0x00, 0xff, 0x03, 0x01, 0x00, 0x01, 0x00]);
    assert_eq!(&b[48..64], &[0u8; 16]);
}

#[test]
fn blank_create_commands_are_opcode_then_zeros() {
    let cq = NvmeCreateCq::new_create_cq_command().to_bytes();
    let sq = NvmeCreateSq::new_create_sq_command().to_bytes();
    assert_eq!(cq[0], 0x04);
    assert_eq!(sq[0], 0x05);
    assert!(cq[1..].iter().all(|&x| x == 0));
    assert!(sq[1..].iter().all(|&x| x == 0));
}

#[test]
fn rw_command_bytes_follow_field_order() {
    let (iface, _) = new_interface();
    let b = iface.read_command(0x0102).to_bytes();
    assert_eq!(b.len(), NVME_COMMAND_SIZE);
    assert_eq!(&b[0..4], &[0x02, 0x00, 0x00, 0x00]);
    assert_eq!(&b[4..8], &[0x01, 0x00, 0x00, 0x00]);
    assert_eq!(&b[8..24], &[0u8; 16]);
    assert_eq!(&b[24..32], &(DMA_PA as u64).to_le_bytes());
    assert_eq!(&b[32..40], &[0u8; 8]);
    assert_eq!(&b[40..48], &[0x02, 0x01, 0, 0, 0, 0, 0, 0]);
    assert_eq!(&b[48..64], &[0u8; 16]);
}
