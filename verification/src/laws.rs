use vstd::prelude::*;
use crate::config::{lemma_limits_last, lemma_limits_skip, Config};
use crate::record::{frame_model, RecordModel};
use crate::source::{sent_by, ReadModel};
use crate::registry::{resolved, slot_of, streams_after};
use crate::wire::{be32, be32_value, fields_of, header_bytes, parse_record, record_bytes};

verus! {

/// A truncated record stores exactly as many bytes as it says, no more than
/// it stored before and no more than the limit. What it stores is the front
/// of what it stored before, and its length on the wire is untouched.
pub proof fn truncation_bounds(record: RecordModel, limit: nat)
    requires
        record.well_formed(),
    ensures
        record.truncated(limit).well_formed(),
        record.truncated(limit).payload.len() == record.truncated(limit).captured_length,
        record.truncated(limit).captured_length <= record.captured_length,
        record.truncated(limit).captured_length <= limit,
        record.truncated(limit).original_length == record.original_length,
        record.truncated(limit).payload.is_prefix_of(record.payload),
        record.captured_length <= limit ==> record.truncated(limit) == record,
{
    let cut = record.truncated(limit);
    if record.captured_length <= limit {
        assert(cut.payload =~= record.payload);
    }
}

/// A tag that no entry names gets the default snap length.
pub proof fn unlisted_tag_gets_default(config: Config, tag: Seq<char>)
    requires
        forall|i: int| 0 <= i < config.max_incl_len@.len() ==> config.max_incl_len@[i].tag@ != tag,
    ensures
        config.limit_for(tag) == config.default_max_incl_len,
{
    lemma_limits_skip(config.max_incl_len@, 0, tag);
}

/// A tag gets the snap length of the last entry that names it.
pub proof fn listed_tag_gets_its_limit(config: Config, tag: Seq<char>, at: int)
    requires
        0 <= at < config.max_incl_len@.len(),
        config.max_incl_len@[at].tag@ == tag,
        forall|i: int| at < i < config.max_incl_len@.len() ==> config.max_incl_len@[i].tag@ != tag,
    ensures
        config.limit_for(tag) == config.max_incl_len@[at].limit,
{
    lemma_limits_last(config.max_incl_len@, at, tag);
}

/// A failed read sends nothing: what a source has sent is what it had sent
/// before the read.
pub proof fn failed_read_sends_nothing(reads: Seq<ReadModel>, failed: ReadModel)
    requires
        failed.frame is None,
    ensures
        sent_by(reads.push(failed)) == sent_by(reads),
{
    assert(reads.push(failed).drop_last() =~= reads);
}

/// A read that gave a frame sends exactly the record of that frame, behind
/// all that was sent before.
pub proof fn good_read_sends_its_record(reads: Seq<ReadModel>, read: ReadModel)
    requires
        read.frame is Some,
    ensures
        sent_by(reads.push(read)) == sent_by(reads).push(
            frame_model(read.unix_seconds, read.subsec_nanos, read.frame->0),
        ),
{
    assert(reads.push(read).drop_last() =~= reads);
}

/// A failed read anywhere in a run changes nothing of what the source
/// sends: the reads before and after it send what they would have sent
/// without it, so the source goes on and no other record is touched.
pub proof fn failed_read_leaves_the_rest(before: Seq<ReadModel>, failed: ReadModel, after: Seq<ReadModel>)
    requires
        failed.frame is None,
    ensures
        sent_by(before.push(failed) + after) == sent_by(before + after),
    decreases after.len(),
{
    if after.len() == 0 {
        assert(before.push(failed) + after =~= before.push(failed));
        assert(before + after =~= before);
        failed_read_sends_nothing(before, failed);
    } else {
        let head = after.drop_last();
        failed_read_leaves_the_rest(before, failed, head);
        assert((before.push(failed) + after).drop_last() =~= before.push(failed) + head);
        assert((before + after).drop_last() =~= before + head);
        assert((before.push(failed) + after).last() == after.last());
        assert((before + after).last() == after.last());
    }
}

/// An envelope that stores fewer bytes than its length byte and tag take up
/// holds no tag, so it is refused.
pub proof fn short_envelope_has_no_tag(envelope: RecordModel)
    requires
        envelope.well_formed(),
        envelope.captured_length == 0 || envelope.captured_length < 1 + envelope.payload[0],
    ensures
        !envelope.has_tag(),
{
}

/// Taking the tag off an envelope shortens both lengths by the length byte
/// and the tag, and leaves the bytes behind the tag as the payload.
pub proof fn detagged_record(envelope: RecordModel)
    requires
        envelope.well_formed(),
        envelope.has_tag(),
    ensures
        envelope.detagged().well_formed(),
        envelope.detagged().captured_length == envelope.captured_length - (1 + envelope.payload[0]),
        envelope.detagged().original_length == envelope.original_length - (1 + envelope.payload[0]),
        envelope.detagged().payload == envelope.payload.subrange(
            1 + envelope.payload[0],
            envelope.captured_length as int,
        ),
        envelope.detagged().seconds == envelope.seconds,
        envelope.detagged().nanoseconds == envelope.nanoseconds,
{
}

/// The first record of a stream makes its sink; every later record of that
/// stream finds the same sink and makes none.
pub proof fn known_stream_is_reused(tags: Seq<Seq<char>>, tag: Seq<char>)
    requires
        tags.no_duplicates(),
    ensures
        resolved(tags, tag).no_duplicates(),
        resolved(tags, tag).contains(tag),
        resolved(resolved(tags, tag), tag) == resolved(tags, tag),
        slot_of(resolved(tags, tag), tag) == slot_of(tags, tag),
        !tags.contains(tag) ==> resolved(tags, tag).len() == tags.len() + 1 && slot_of(tags, tag)
            == tags.len(),
        tags.contains(tag) ==> resolved(tags, tag) == tags,
{
    let after = resolved(tags, tag);
    if !tags.contains(tag) {
        assert(after[tags.len() as int] == tag);
        assert(after.contains(tag));
        let found = after.index_of(tag);
        assert(after[found] == tag);
        if found != tags.len() {
            assert(tags[found] == tag);
        }
    }
}

/// A stream keeps its sink whatever other streams arrive after it.
pub proof fn streams_keep_their_sinks(tags: Seq<Seq<char>>, tag: Seq<char>, other: Seq<char>)
    requires
        tags.no_duplicates(),
        tags.contains(tag),
    ensures
        resolved(tags, other).contains(tag),
        slot_of(resolved(tags, other), tag) == slot_of(tags, tag),
        resolved(tags, other)[slot_of(tags, tag)] == tag,
{
    known_stream_is_reused(tags, other);
    let after = resolved(tags, other);
    let before_at = tags.index_of(tag);
    assert(tags[before_at] == tag);
    assert(after[before_at] == tag);
    assert(after.contains(tag));
    let after_at = after.index_of(tag);
    assert(after[after_at] == tag);
}

/// However many records arrive, no tag comes to stand in the registry twice.
pub proof fn arrivals_keep_streams_distinct(tags: Seq<Seq<char>>, arrivals: Seq<Seq<char>>)
    requires
        tags.no_duplicates(),
    ensures
        streams_after(tags, arrivals).no_duplicates(),
    decreases arrivals.len(),
{
    if arrivals.len() > 0 {
        arrivals_keep_streams_distinct(tags, arrivals.drop_last());
        known_stream_is_reused(streams_after(tags, arrivals.drop_last()), arrivals.last());
    }
}

/// A stream that has a sink keeps it through any run of arrivals.
pub proof fn arrivals_keep_known_sinks(tags: Seq<Seq<char>>, arrivals: Seq<Seq<char>>, tag: Seq<char>)
    requires
        tags.no_duplicates(),
        tags.contains(tag),
    ensures
        streams_after(tags, arrivals).no_duplicates(),
        streams_after(tags, arrivals).contains(tag),
        slot_of(streams_after(tags, arrivals), tag) == slot_of(tags, tag),
    decreases arrivals.len(),
{
    if arrivals.len() > 0 {
        let earlier = streams_after(tags, arrivals.drop_last());
        arrivals_keep_known_sinks(tags, arrivals.drop_last(), tag);
        streams_keep_their_sinks(earlier, tag, arrivals.last());
        known_stream_is_reused(earlier, arrivals.last());
    } else {
        known_stream_is_reused(tags, tag);
    }
}

/// A run of arrivals can be taken in two parts.
pub proof fn arrivals_in_two_parts(tags: Seq<Seq<char>>, arrivals: Seq<Seq<char>>, at: int)
    requires
        0 <= at <= arrivals.len(),
    ensures
        streams_after(tags, arrivals) == streams_after(
            streams_after(tags, arrivals.take(at)),
            arrivals.skip(at),
        ),
    decreases arrivals.len(),
{
    if at == arrivals.len() {
        assert(arrivals.take(at) =~= arrivals);
        assert(arrivals.skip(at).len() == 0);
    } else {
        let front = arrivals.drop_last();
        arrivals_in_two_parts(tags, front, at);
        assert(front.take(at) =~= arrivals.take(at));
        assert(arrivals.skip(at).drop_last() =~= front.skip(at));
        assert(arrivals.skip(at).last() == arrivals.last());
    }
}

/// Over a whole run of arrivals, two records with the same tag go to the
/// same sink, and the later of them creates none: each stream gets one sink,
/// made by its first record.
pub proof fn one_sink_per_stream(tags: Seq<Seq<char>>, arrivals: Seq<Seq<char>>, i: int, j: int)
    requires
        tags.no_duplicates(),
        0 <= i < j < arrivals.len(),
        arrivals[i] == arrivals[j],
    ensures
        streams_after(tags, arrivals.take(j)).contains(arrivals[j]),
        slot_of(streams_after(tags, arrivals.take(j)), arrivals[j]) == slot_of(
            streams_after(tags, arrivals.take(i)),
            arrivals[i],
        ),
{
    let tag = arrivals[i];
    let at_i = streams_after(tags, arrivals.take(i));
    let upto_i = arrivals.take(i + 1);
    assert(upto_i.drop_last() =~= arrivals.take(i));
    assert(upto_i.last() == tag);
    let after_i = streams_after(tags, upto_i);
    assert(after_i == resolved(at_i, tag));
    arrivals_keep_streams_distinct(tags, arrivals.take(i));
    known_stream_is_reused(at_i, tag);
    let upto_j = arrivals.take(j);
    arrivals_in_two_parts(tags, upto_j, i + 1);
    assert(upto_j.take(i + 1) =~= upto_i);
    arrivals_keep_known_sinks(after_i, upto_j.skip(i + 1), tag);
}

/// Four bytes written most significant first spell the number again.
pub proof fn be32_round_trip(x: u32)
    ensures
        be32(x).len() == 4,
        be32_value(be32(x)) == x,
{
}

/// Decoding an encoded record gives the record back, its sub-second part
/// rounded down to whole microseconds, whatever follows it in the stream.
/// The format holds no length above 65535.
pub proof fn encode_then_decode(record: RecordModel, rest: Seq<u8>)
    requires
        record.well_formed(),
        record.original_length <= 0xFFFF,
    ensures
        parse_record(record_bytes(record) + rest) == Some(
            (
                RecordModel { nanoseconds: (record.nanoseconds / 1000 * 1000) as u32, ..record },
                (16 + record.captured_length) as nat,
            ),
        ),
{
    let bytes = record_bytes(record) + rest;
    let micros = (record.nanoseconds / 1000) as u32;
    be32_round_trip(record.seconds);
    be32_round_trip(micros);
    be32_round_trip(record.captured_length);
    be32_round_trip(record.original_length);
    assert(header_bytes(fields_of(record)).len() == 16);
    assert(bytes.subrange(0, 4) =~= be32(record.seconds));
    assert(bytes.subrange(4, 8) =~= be32(micros));
    assert(bytes.subrange(8, 12) =~= be32(record.captured_length));
    assert(bytes.subrange(12, 16) =~= be32(record.original_length));
    assert(bytes.subrange(16, 16 + record.captured_length) =~= record.payload);
}

} // verus!
