use crate::bytes::{le_value, read_u16};
use crate::message::{decodes_to, parse_message, record_accepted, IexDeepMessage};
use vstd::arithmetic::div_mod::lemma_add_mod_noop;
use vstd::prelude::*;

verus! {

/// Where the record whose length prefix opens `region` ends: after its
/// declared length, or at the end of `region` when fewer bytes remain.
pub open spec fn record_end(region: Seq<u8>) -> int {
    let l = le_value(region.subrange(0, 2));
    if 2 + l <= region.len() {
        2 + l as int
    } else {
        region.len() as int
    }
}

/// The message records of a packet's message region, in order: each is the
/// bytes after a two-byte little-endian length prefix, cut at the end of the
/// region. The walk stops when fewer than two bytes remain or at a length of
/// zero.
pub open spec fn records(region: Seq<u8>) -> Seq<Seq<u8>>
    decreases region.len(),
{
    if region.len() < 2 || le_value(region.subrange(0, 2)) == 0 {
        Seq::empty()
    } else {
        let end = record_end(region);
        seq![region.subrange(2, end)] + records(region.subrange(end, region.len() as int))
    }
}

/// The records of `recs` that decode, each with its position in `recs`.
pub open spec fn accepted_records(recs: Seq<Seq<u8>>) -> Seq<(Seq<u8>, int)>
    decreases recs.len(),
{
    if recs.len() == 0 {
        Seq::empty()
    } else {
        let prev = accepted_records(recs.drop_last());
        let i = recs.len() - 1;
        if record_accepted(recs[i]) {
            prev.push((recs[i], i))
        } else {
            prev
        }
    }
}

/// The sequence number of the record at `position`, counting from `first`
/// (modulo 2^64).
pub open spec fn sequence_number(first: u64, position: int) -> u64 {
    ((first + position) % 0x10000000000000000) as u64
}

/// Whether `msgs` are the messages that the records of `region` decode to,
/// in order, numbered from `first` within packet `packet`.
pub open spec fn decoded_body(region: Seq<u8>, packet: u64, first: u64, msgs: Seq<IexDeepMessage>) -> bool {
    let kept = accepted_records(records(region));
    &&& msgs.len() == kept.len()
    &&& forall|i: int|
        0 <= i < msgs.len() ==> {
            let (rec, pos) = #[trigger] kept[i];
            decodes_to(rec, packet, sequence_number(first, pos), msgs[i])
        }
}

/// Splits a packet's message region into records and decodes each of them.
/// Records that do not decode are skipped; every attempted record takes the
/// next sequence number, starting at `message_seq_num_start`.
pub fn parse_body(bytes: &[u8], packet_num: u64, message_seq_num_start: u64) -> (r: Vec<
    IexDeepMessage,
>)
    ensures
        decoded_body(bytes@, packet_num, message_seq_num_start, r@),
{
    let mut messages: Vec<IexDeepMessage> = Vec::new();
    let len = bytes.len();
    let mut offset: usize = 0;
    let mut message_seq_num: u64 = message_seq_num_start;
    let ghost mut done: Seq<Seq<u8>> = Seq::empty();
    assert(bytes@.subrange(0, len as int) =~= bytes@);
    while len - offset >= 2
        invariant
            len == bytes@.len(),
            offset <= len,
            records(bytes@) == done + records(bytes@.subrange(offset as int, len as int)),
            message_seq_num == sequence_number(message_seq_num_start, done.len() as int),
            messages@.len() == accepted_records(done).len(),
            forall|i: int|
                0 <= i < messages@.len() ==> {
                    let (rec, pos) = #[trigger] accepted_records(done)[i];
                    decodes_to(rec, packet_num, sequence_number(message_seq_num_start, pos), messages@[i])
                },
        decreases len - offset,
    {
        let ghost rest = bytes@.subrange(offset as int, len as int);
        let message_length = read_u16(bytes, offset);
        assert(rest.subrange(0, 2) =~= bytes@.subrange(offset as int, offset + 2));
        if message_length == 0 {
            // A zero length marks the end of the messages.
            proof {
                assert(records(rest) == Seq::<Seq<u8>>::empty());
                assert(bytes@.subrange(len as int, len as int) =~= Seq::<u8>::empty());
                assert(done + records(rest) =~= done + records(
                    bytes@.subrange(len as int, len as int),
                ));
            }
            offset = len;
        } else {
            let end: usize = if message_length as usize <= len - offset - 2 {
                offset + 2 + message_length as usize
            } else {
                len
            };
            let record = &bytes[offset + 2..end];
            proof {
                assert(record_end(rest) == end - offset);
                assert(rest.subrange(2, end - offset) =~= record@);
                assert(rest.subrange(end - offset, rest.len() as int) =~= bytes@.subrange(
                    end as int,
                    len as int,
                ));
                assert(records(rest) == seq![record@] + records(
                    bytes@.subrange(end as int, len as int),
                ));
                assert(done + records(rest) =~= done.push(record@) + records(
                    bytes@.subrange(end as int, len as int),
                ));
                assert(done.push(record@).drop_last() =~= done);
            }
            let parsed = parse_message(record, packet_num, message_seq_num);
            match parsed {
                Some(m) => {
                    messages.push(m);
                },
                None => {},
            }
            proof {
                lemma_add_mod_noop(message_seq_num_start + done.len(), 1, 0x10000000000000000);
                done = done.push(record@);
            }
            offset = end;
            message_seq_num = message_seq_num.wrapping_add(1);
        }
    }
    proof {
        assert(records(bytes@.subrange(offset as int, len as int)) =~= Seq::<Seq<u8>>::empty());
        assert(done + Seq::<Seq<u8>>::empty() =~= done);
    }
    messages
}

/// Whether `region` is a run of whole records, each with a nonzero length
/// that fits inside `region`.
pub open spec fn whole_records(region: Seq<u8>) -> bool
    decreases region.len(),
{
    if region.len() == 0 {
        true
    } else if region.len() < 2 {
        false
    } else {
        let l = le_value(region.subrange(0, 2));
        l > 0 && 2 + l <= region.len() && whole_records(
            region.subrange(2 + l as int, region.len() as int),
        )
    }
}

/// A zero-length record ends the walk: whatever follows it, the region
/// yields exactly the records that came before it, and so decodes to the same
/// messages.
pub proof fn lemma_zero_length_record_stops(before: Seq<u8>, after: Seq<u8>)
    requires
        whole_records(before),
    ensures
        records(before + seq![0u8, 0u8] + after) == records(before),
        accepted_records(records(before + seq![0u8, 0u8] + after)) == accepted_records(
            records(before),
        ),
    decreases before.len(),
{
    let region = before + seq![0u8, 0u8] + after;
    if before.len() == 0 {
        assert(region.subrange(0, 2) =~= seq![0u8, 0u8]);
        let z = seq![0u8, 0u8];
        assert(z.drop_first() =~= seq![0u8]);
        assert(z.drop_first().drop_first() =~= Seq::<u8>::empty());
        reveal_with_fuel(le_value, 3);
        assert(le_value(z) == 0);
    } else {
        assert(region.subrange(0, 2) =~= before.subrange(0, 2));
        let l = le_value(before.subrange(0, 2));
        let end = 2 + l as int;
        let tail = before.subrange(end, before.len() as int);
        lemma_zero_length_record_stops(tail, after);
        assert(region.subrange(2, end) =~= before.subrange(2, end));
        assert(region.subrange(end, region.len() as int) =~= tail + seq![0u8, 0u8] + after);
    }
}

/// Record `i` of a region is numbered `first + i`: the decoded messages come
/// from records at strictly increasing positions, whatever records between
/// them failed to decode, so without wrap-around their sequence numbers rise
/// from `first` in steps of one per attempted record.
pub proof fn lemma_sequence_numbers(recs: Seq<Seq<u8>>, first: u64)
    ensures
        forall|i: int|
            0 <= i < accepted_records(recs).len() ==> {
                let (rec, pos) = #[trigger] accepted_records(recs)[i];
                &&& 0 <= pos < recs.len()
                &&& rec == recs[pos]
                &&& first + recs.len() <= u64::MAX ==> sequence_number(first, pos) == first + pos
            },
        forall|i: int, j: int|
            0 <= i < j < accepted_records(recs).len() ==> accepted_records(recs)[i].1
                < accepted_records(recs)[j].1,
        forall|pos: int|
            0 <= pos < recs.len() && record_accepted(#[trigger] recs[pos]) ==> exists|i: int|
                0 <= i < accepted_records(recs).len() && accepted_records(recs)[i] == (
                    recs[pos],
                    pos,
                ),
    decreases recs.len(),
{
    if recs.len() > 0 {
        let prev = recs.drop_last();
        lemma_sequence_numbers(prev, first);
        let k = accepted_records(recs);
        let kp = accepted_records(prev);
        assert forall|i: int| 0 <= i < kp.len() implies kp[i].1 < recs.len() - 1 by {}
        assert forall|pos: int|
            0 <= pos < recs.len() && record_accepted(#[trigger] recs[pos]) implies exists|i: int|
                0 <= i < k.len() && k[i] == (recs[pos], pos) by {
            if pos < recs.len() - 1 {
                assert(prev[pos] == recs[pos]);
                let i = choose|i: int| 0 <= i < kp.len() && kp[i] == (prev[pos], pos);
                assert(k[i] == kp[i]);
            } else {
                assert(k[k.len() - 1] == (recs[pos], pos));
            }
        }
    }
}

/// The decoded messages of a region carry rising sequence numbers: each is
/// `first` plus the position of its record among all attempted records.
pub proof fn lemma_decoded_sequence_numbers(
    region: Seq<u8>,
    packet: u64,
    first: u64,
    msgs: Seq<IexDeepMessage>,
)
    requires
        decoded_body(region, packet, first, msgs),
        first + records(region).len() <= u64::MAX,
    ensures
        forall|i: int|
            0 <= i < msgs.len() ==> {
                let pos = accepted_records(records(region))[i].1;
                &&& 0 <= pos < records(region).len()
                &&& #[trigger] msgs[i].message_sequence_number == first + pos
            },
        forall|i: int, j: int|
            0 <= i < j < msgs.len() ==> msgs[i].message_sequence_number
                < msgs[j].message_sequence_number,
{
    let recs = records(region);
    lemma_sequence_numbers(recs, first);
    assert forall|i: int| 0 <= i < msgs.len() implies {
        let pos = accepted_records(recs)[i].1;
        &&& 0 <= pos < recs.len()
        &&& #[trigger] msgs[i].message_sequence_number == first + pos
    } by {
        let (rec, pos) = accepted_records(recs)[i];
        assert(decodes_to(rec, packet, sequence_number(first, pos), msgs[i]));
    }
    assert forall|i: int, j: int| 0 <= i < j < msgs.len() implies msgs[i].message_sequence_number
        < msgs[j].message_sequence_number by {
        let (rec_i, pos_i) = accepted_records(recs)[i];
        let (rec_j, pos_j) = accepted_records(recs)[j];
        assert(decodes_to(rec_i, packet, sequence_number(first, pos_i), msgs[i]));
        assert(decodes_to(rec_j, packet, sequence_number(first, pos_j), msgs[j]));
    }
}

} // verus!
