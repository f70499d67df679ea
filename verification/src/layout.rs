//! The byte layout in which the controller reads the admin queue commands.
use vstd::prelude::*;
use vstd::bytes::{
    spec_u16_to_le_bytes, spec_u32_to_le_bytes, spec_u64_to_le_bytes, u16_to_le_bytes,
    u32_to_le_bytes, u64_to_le_bytes,
};

use crate::driver::NVME_COMMAND_SIZE;
use crate::interface::{NvmeCreateCq, NvmeCreateSq, NvmeRWCommand};

verus! {

/// The little-endian bytes of each word of `words`, in order.
pub open spec fn u32s_to_le_bytes(words: Seq<u32>) -> Seq<u8>
    decreases words.len(),
{
    if words.len() == 0 {
        Seq::empty()
    } else {
        u32s_to_le_bytes(words.drop_last()) + spec_u32_to_le_bytes(words.last())
    }
}

/// Create I/O Completion Queue command bytes: the fields in declaration order,
/// each little endian, with no padding between them.
pub open spec fn create_cq_bytes(c: NvmeCreateCq) -> Seq<u8> {
    seq![c.opcode, c.flags] + spec_u16_to_le_bytes(c.command_id) + u32s_to_le_bytes(c.rsvd1@)
        + spec_u64_to_le_bytes(c.prp1) + spec_u64_to_le_bytes(c.rsvd8) + spec_u16_to_le_bytes(
        c.sqid,
    ) + spec_u16_to_le_bytes(c.qsize) + spec_u16_to_le_bytes(c.cq_flags) + spec_u16_to_le_bytes(
        c.irq_vector,
    ) + u32s_to_le_bytes(c.rsvd12@)
}

/// Create I/O Submission Queue command bytes: the fields in declaration order,
/// each little endian, with no padding between them.
pub open spec fn create_sq_bytes(c: NvmeCreateSq) -> Seq<u8> {
    seq![c.opcode, c.flags] + spec_u16_to_le_bytes(c.command_id) + u32s_to_le_bytes(c.rsvd1@)
        + spec_u64_to_le_bytes(c.prp1) + spec_u64_to_le_bytes(c.rsvd8) + spec_u16_to_le_bytes(
        c.sqid,
    ) + spec_u16_to_le_bytes(c.qsize) + spec_u16_to_le_bytes(c.sq_flags) + spec_u16_to_le_bytes(
        c.cqid,
    ) + u32s_to_le_bytes(c.rsvd12@)
}

/// Read or Write command bytes: the fields in declaration order, each little
/// endian, with no padding between them.
pub open spec fn rw_command_bytes(c: NvmeRWCommand) -> Seq<u8> {
    seq![c.opcode, c.flags] + spec_u16_to_le_bytes(c.command_id) + spec_u32_to_le_bytes(c.nsid)
        + spec_u64_to_le_bytes(c.rsvd2) + spec_u64_to_le_bytes(c.metadata) + spec_u64_to_le_bytes(
        c.prp1,
    ) + spec_u64_to_le_bytes(c.prp2) + spec_u64_to_le_bytes(c.slba) + spec_u16_to_le_bytes(c.length)
        + spec_u16_to_le_bytes(c.control) + spec_u32_to_le_bytes(c.dsmgmt) + spec_u32_to_le_bytes(
        c.reftag,
    ) + spec_u16_to_le_bytes(c.apptag) + spec_u16_to_le_bytes(c.appmask)
}

/// Where each field of a create-queue command lies in its 64 bytes: opcode byte 0,
/// flags byte 1, command identifier 2..4, the reserved dwords 4..24, PRP1 24..32,
/// the reserved quadword 32..40, queue identifier 40..42, queue size 42..44, queue
/// flags 44..46, interrupt vector (CQ) or completion queue identifier (SQ) 46..48
/// and the last reserved dwords 48..64, each little endian.
pub proof fn lemma_create_queue_field_offsets(cq: NvmeCreateCq, sq: NvmeCreateSq)
    ensures
        create_cq_bytes(cq)[0] == cq.opcode,
        create_cq_bytes(cq)[1] == cq.flags,
        create_cq_bytes(cq).subrange(2, 4) == spec_u16_to_le_bytes(cq.command_id),
        create_cq_bytes(cq).subrange(4, 24) == u32s_to_le_bytes(cq.rsvd1@),
        create_cq_bytes(cq).subrange(24, 32) == spec_u64_to_le_bytes(cq.prp1),
        create_cq_bytes(cq).subrange(32, 40) == spec_u64_to_le_bytes(cq.rsvd8),
        create_cq_bytes(cq).subrange(40, 42) == spec_u16_to_le_bytes(cq.sqid),
        create_cq_bytes(cq).subrange(42, 44) == spec_u16_to_le_bytes(cq.qsize),
        create_cq_bytes(cq).subrange(44, 46) == spec_u16_to_le_bytes(cq.cq_flags),
        create_cq_bytes(cq).subrange(46, 48) == spec_u16_to_le_bytes(cq.irq_vector),
        create_cq_bytes(cq).subrange(48, 64) == u32s_to_le_bytes(cq.rsvd12@),
        create_sq_bytes(sq)[0] == sq.opcode,
        create_sq_bytes(sq)[1] == sq.flags,
        create_sq_bytes(sq).subrange(2, 4) == spec_u16_to_le_bytes(sq.command_id),
        create_sq_bytes(sq).subrange(4, 24) == u32s_to_le_bytes(sq.rsvd1@),
        create_sq_bytes(sq).subrange(24, 32) == spec_u64_to_le_bytes(sq.prp1),
        create_sq_bytes(sq).subrange(32, 40) == spec_u64_to_le_bytes(sq.rsvd8),
        create_sq_bytes(sq).subrange(40, 42) == spec_u16_to_le_bytes(sq.sqid),
        create_sq_bytes(sq).subrange(42, 44) == spec_u16_to_le_bytes(sq.qsize),
        create_sq_bytes(sq).subrange(44, 46) == spec_u16_to_le_bytes(sq.sq_flags),
        create_sq_bytes(sq).subrange(46, 48) == spec_u16_to_le_bytes(sq.cqid),
        create_sq_bytes(sq).subrange(48, 64) == u32s_to_le_bytes(sq.rsvd12@),
{
    lemma_word_lengths();
    lemma_u32s_to_le_bytes_len(cq.rsvd1@);
    lemma_u32s_to_le_bytes_len(cq.rsvd12@);
    lemma_u32s_to_le_bytes_len(sq.rsvd1@);
    lemma_u32s_to_le_bytes_len(sq.rsvd12@);
    let c = create_cq_bytes(cq);
    assert(c.subrange(2, 4) =~= spec_u16_to_le_bytes(cq.command_id));
    assert(c.subrange(4, 24) =~= u32s_to_le_bytes(cq.rsvd1@));
    assert(c.subrange(24, 32) =~= spec_u64_to_le_bytes(cq.prp1));
    assert(c.subrange(32, 40) =~= spec_u64_to_le_bytes(cq.rsvd8));
    assert(c.subrange(40, 42) =~= spec_u16_to_le_bytes(cq.sqid));
    assert(c.subrange(42, 44) =~= spec_u16_to_le_bytes(cq.qsize));
    assert(c.subrange(44, 46) =~= spec_u16_to_le_bytes(cq.cq_flags));
    assert(c.subrange(46, 48) =~= spec_u16_to_le_bytes(cq.irq_vector));
    assert(c.subrange(48, 64) =~= u32s_to_le_bytes(cq.rsvd12@));
    let t = create_sq_bytes(sq);
    assert(t.subrange(2, 4) =~= spec_u16_to_le_bytes(sq.command_id));
    assert(t.subrange(4, 24) =~= u32s_to_le_bytes(sq.rsvd1@));
    assert(t.subrange(24, 32) =~= spec_u64_to_le_bytes(sq.prp1));
    assert(t.subrange(32, 40) =~= spec_u64_to_le_bytes(sq.rsvd8));
    assert(t.subrange(40, 42) =~= spec_u16_to_le_bytes(sq.sqid));
    assert(t.subrange(42, 44) =~= spec_u16_to_le_bytes(sq.qsize));
    assert(t.subrange(44, 46) =~= spec_u16_to_le_bytes(sq.sq_flags));
    assert(t.subrange(46, 48) =~= spec_u16_to_le_bytes(sq.cqid));
    assert(t.subrange(48, 64) =~= u32s_to_le_bytes(sq.rsvd12@));
}

/// Where each field of a Read or Write command lies in its 64 bytes: opcode byte 0,
/// flags byte 1, command identifier 2..4, namespace 4..8, reserved 8..16, metadata
/// 16..24, PRP1 24..32, PRP2 32..40, starting LBA 40..48, length 48..50, control
/// 50..52, dataset management 52..56, reference tag 56..60, application tag 60..62
/// and application tag mask 62..64, each little endian.
pub proof fn lemma_rw_command_field_offsets(c: NvmeRWCommand)
    ensures
        rw_command_bytes(c).len() == NVME_COMMAND_SIZE,
        rw_command_bytes(c)[0] == c.opcode,
        rw_command_bytes(c)[1] == c.flags,
        rw_command_bytes(c).subrange(2, 4) == spec_u16_to_le_bytes(c.command_id),
        rw_command_bytes(c).subrange(4, 8) == spec_u32_to_le_bytes(c.nsid),
        rw_command_bytes(c).subrange(8, 16) == spec_u64_to_le_bytes(c.rsvd2),
        rw_command_bytes(c).subrange(16, 24) == spec_u64_to_le_bytes(c.metadata),
        rw_command_bytes(c).subrange(24, 32) == spec_u64_to_le_bytes(c.prp1),
        rw_command_bytes(c).subrange(32, 40) == spec_u64_to_le_bytes(c.prp2),
        rw_command_bytes(c).subrange(40, 48) == spec_u64_to_le_bytes(c.slba),
        rw_command_bytes(c).subrange(48, 50) == spec_u16_to_le_bytes(c.length),
        rw_command_bytes(c).subrange(50, 52) == spec_u16_to_le_bytes(c.control),
        rw_command_bytes(c).subrange(52, 56) == spec_u32_to_le_bytes(c.dsmgmt),
        rw_command_bytes(c).subrange(56, 60) == spec_u32_to_le_bytes(c.reftag),
        rw_command_bytes(c).subrange(60, 62) == spec_u16_to_le_bytes(c.apptag),
        rw_command_bytes(c).subrange(62, 64) == spec_u16_to_le_bytes(c.appmask),
{
    lemma_word_lengths();
    let b = rw_command_bytes(c);
    assert(b.subrange(2, 4) =~= spec_u16_to_le_bytes(c.command_id));
    assert(b.subrange(4, 8) =~= spec_u32_to_le_bytes(c.nsid));
    assert(b.subrange(8, 16) =~= spec_u64_to_le_bytes(c.rsvd2));
    assert(b.subrange(16, 24) =~= spec_u64_to_le_bytes(c.metadata));
    assert(b.subrange(24, 32) =~= spec_u64_to_le_bytes(c.prp1));
    assert(b.subrange(32, 40) =~= spec_u64_to_le_bytes(c.prp2));
    assert(b.subrange(40, 48) =~= spec_u64_to_le_bytes(c.slba));
    assert(b.subrange(48, 50) =~= spec_u16_to_le_bytes(c.length));
    assert(b.subrange(50, 52) =~= spec_u16_to_le_bytes(c.control));
    assert(b.subrange(52, 56) =~= spec_u32_to_le_bytes(c.dsmgmt));
    assert(b.subrange(56, 60) =~= spec_u32_to_le_bytes(c.reftag));
    assert(b.subrange(60, 62) =~= spec_u16_to_le_bytes(c.apptag));
    assert(b.subrange(62, 64) =~= spec_u16_to_le_bytes(c.appmask));
}

proof fn lemma_u32s_to_le_bytes_len(words: Seq<u32>)
    ensures
        u32s_to_le_bytes(words).len() == 4 * words.len(),
    decreases words.len(),
{
    vstd::bytes::lemma_auto_spec_u32_to_from_le_bytes();
    if words.len() > 0 {
        lemma_u32s_to_le_bytes_len(words.drop_last());
    }
}

proof fn lemma_word_lengths()
    ensures
        forall|x: u16| #[trigger] spec_u16_to_le_bytes(x).len() == 2,
        forall|x: u32| #[trigger] spec_u32_to_le_bytes(x).len() == 4,
        forall|x: u64| #[trigger] spec_u64_to_le_bytes(x).len() == 8,
{
    vstd::bytes::lemma_auto_spec_u16_to_from_le_bytes();
    vstd::bytes::lemma_auto_spec_u32_to_from_le_bytes();
    vstd::bytes::lemma_auto_spec_u64_to_from_le_bytes();
}

fn push_u16(buf: &mut Vec<u8>, x: u16)
    ensures
        final(buf)@ == old(buf)@ + spec_u16_to_le_bytes(x),
{
    let mut b = u16_to_le_bytes(x);
    buf.append(&mut b);
}

fn push_u32(buf: &mut Vec<u8>, x: u32)
    ensures
        final(buf)@ == old(buf)@ + spec_u32_to_le_bytes(x),
{
    let mut b = u32_to_le_bytes(x);
    buf.append(&mut b);
}

fn push_u64(buf: &mut Vec<u8>, x: u64)
    ensures
        final(buf)@ == old(buf)@ + spec_u64_to_le_bytes(x),
{
    let mut b = u64_to_le_bytes(x);
    buf.append(&mut b);
}

fn push_u32s(buf: &mut Vec<u8>, words: &[u32])
    ensures
        final(buf)@ == old(buf)@ + u32s_to_le_bytes(words@),
{
    let ghost start = buf@;
    let mut i: usize = 0;
    while i < words.len()
        invariant
            i <= words@.len(),
            buf@ == start + u32s_to_le_bytes(words@.subrange(0, i as int)),
        decreases words@.len() - i,
    {
        let mut b = u32_to_le_bytes(words[i]);
        buf.append(&mut b);
        proof {
            let next = words@.subrange(0, i + 1);
            assert(next.drop_last() =~= words@.subrange(0, i as int));
            assert(next.last() == words@[i as int]);
        }
        i = i + 1;
    }
    assert(words@.subrange(0, words@.len() as int) =~= words@);
}

impl NvmeCreateCq {
    /// The command as the controller reads it from the submission queue.
    pub fn to_bytes(&self) -> (b: Vec<u8>)
        ensures
            b@ == create_cq_bytes(*self),
            b@.len() == NVME_COMMAND_SIZE,
    {
        let mut b: Vec<u8> = Vec::new();
        b.push(self.opcode);
        b.push(self.flags);
        push_u16(&mut b, self.command_id);
        push_u32s(&mut b, &self.rsvd1);
        push_u64(&mut b, self.prp1);
        push_u64(&mut b, self.rsvd8);
        push_u16(&mut b, self.sqid);
        push_u16(&mut b, self.qsize);
        push_u16(&mut b, self.cq_flags);
        push_u16(&mut b, self.irq_vector);
        push_u32s(&mut b, &self.rsvd12);
        proof {
            lemma_word_lengths();
            lemma_u32s_to_le_bytes_len(self.rsvd1@);
            lemma_u32s_to_le_bytes_len(self.rsvd12@);
            assert(b@ =~= create_cq_bytes(*self));
        }
        b
    }
}

impl NvmeCreateSq {
    /// The command as the controller reads it from the submission queue.
    pub fn to_bytes(&self) -> (b: Vec<u8>)
        ensures
            b@ == create_sq_bytes(*self),
            b@.len() == NVME_COMMAND_SIZE,
    {
        let mut b: Vec<u8> = Vec::new();
        b.push(self.opcode);
        b.push(self.flags);
        push_u16(&mut b, self.command_id);
        push_u32s(&mut b, &self.rsvd1);
        push_u64(&mut b, self.prp1);
        push_u64(&mut b, self.rsvd8);
        push_u16(&mut b, self.sqid);
        push_u16(&mut b, self.qsize);
        push_u16(&mut b, self.sq_flags);
        push_u16(&mut b, self.cqid);
        push_u32s(&mut b, &self.rsvd12);
        proof {
            lemma_word_lengths();
            lemma_u32s_to_le_bytes_len(self.rsvd1@);
            lemma_u32s_to_le_bytes_len(self.rsvd12@);
            assert(b@ =~= create_sq_bytes(*self));
        }
        b
    }
}

impl NvmeRWCommand {
    /// The command as the controller reads it from the submission queue.
    pub fn to_bytes(&self) -> (b: Vec<u8>)
        ensures
            b@ == rw_command_bytes(*self),
            b@.len() == NVME_COMMAND_SIZE,
    {
        let mut b: Vec<u8> = Vec::new();
        b.push(self.opcode);
        b.push(self.flags);
        push_u16(&mut b, self.command_id);
        push_u32(&mut b, self.nsid);
        push_u64(&mut b, self.rsvd2);
        push_u64(&mut b, self.metadata);
        push_u64(&mut b, self.prp1);
        push_u64(&mut b, self.prp2);
        push_u64(&mut b, self.slba);
        push_u16(&mut b, self.length);
        push_u16(&mut b, self.control);
        push_u32(&mut b, self.dsmgmt);
        push_u32(&mut b, self.reftag);
        push_u16(&mut b, self.apptag);
        push_u16(&mut b, self.appmask);
        proof {
            lemma_word_lengths();
            assert(b@ =~= rw_command_bytes(*self));
        }
        b
    }
}

} // verus!
