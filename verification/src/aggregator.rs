use vstd::prelude::*;
use vstd::string::StringExecFns;
use crate::config::Config;
use crate::error::Error;
use crate::record::PacketRecord;
use crate::registry::{resolved, slot_of, SinkSlot, StreamRegistry};
use crate::wire::{encode_record, record_bytes};

verus! {

/// The suffix by which a sink provider tells the sink of `tag` from others.
pub open spec fn sink_suffix(tag: Seq<char>) -> Seq<char> {
    "-"@ + tag + ".pcap"@
}

/// Builds the suffix that names the sink of `tag`.
pub fn suffix_for(tag: &String) -> (suffix: String)
    ensures
        suffix@ == sink_suffix(tag@),
{
    let mut suffix = String::from_str("-");
    suffix.append(tag.as_str());
    suffix.append(".pcap");
    suffix
}

/// What is to be done for one received record: create the sink first where
/// `create` holds its suffix, then append `bytes` to the sink at `sink`.
#[derive(Debug)]
pub struct Dispatch {
    pub sink: usize,
    pub create: Option<String>,
    pub record: PacketRecord,
    pub bytes: Vec<u8>,
}

/// The single consumer of all tagged records: it owns the snap-length policy
/// and the registry of streams.
#[derive(Debug)]
pub struct Aggregator {
    policy: Config,
    registry: StreamRegistry,
}

impl Aggregator {
    /// The policy the aggregator was started with.
    pub closed spec fn policy(&self) -> Config {
        self.policy
    }

    /// The tags of the streams that have a sink, in order of first arrival.
    pub closed spec fn streams(&self) -> Seq<Seq<char>> {
        self.registry@
    }

    /// No stream has two sinks.
    pub open spec fn wf(&self) -> bool {
        self.streams().no_duplicates()
    }

    /// An aggregator that has seen no stream yet.
    pub fn new(policy: Config) -> (aggregator: Aggregator)
        ensures
            aggregator.wf(),
            aggregator.policy() == policy,
            aggregator.streams() == Seq::<Seq<char>>::empty(),
    {
        Aggregator { policy, registry: StreamRegistry::new() }
    }

    /// The number of sinks created so far.
    pub fn stream_count(&self) -> (n: usize)
        ensures
            n == self.streams().len(),
    {
        self.registry.len()
    }

    /// Truncates a record to the snap length of its stream. The length seen
    /// on the wire is left as it was.
    pub fn apply_policy(&self, tag: &String, record: PacketRecord) -> (kept: PacketRecord)
        requires
            record.wf(),
        ensures
            kept.wf(),
            kept@ == record@.truncated(self.policy().limit_for(tag@) as nat),
            kept@.captured_length <= self.policy().limit_for(tag@),
            kept@.captured_length <= record@.captured_length,
    {
        let limit = self.policy.max_len_for(tag);
        let mut kept = record;
        kept.truncate(limit);
        kept
    }

    /// Finds the sink of a stream, registering the stream when it is new.
    /// Streams already known keep their sinks.
    pub fn sink_for(&mut self, tag: &String) -> (slot: SinkSlot)
        requires
            old(self).wf(),
        ensures
            final(self).wf(),
            final(self).policy() == old(self).policy(),
            final(self).streams() == resolved(old(self).streams(), tag@),
            slot.index == slot_of(old(self).streams(), tag@),
            slot.index < final(self).streams().len(),
            final(self).streams()[slot.index as int] == tag@,
            slot.created == !old(self).streams().contains(tag@),
    {
        self.registry.resolve(tag)
    }

    /// Handles one received record: applies the policy, encodes the record,
    /// and finds or registers the sink it goes to. No well-formed record is
    /// refused.
    pub fn process(&mut self, tag: &String, record: PacketRecord) -> (r: Result<Dispatch, Error>)
        requires
            old(self).wf(),
            record.wf(),
        ensures
            final(self).wf(),
            final(self).policy() == old(self).policy(),
            final(self).streams() == resolved(old(self).streams(), tag@),
            r is Ok,
            r matches Ok(d) ==> {
                &&& d.sink == slot_of(old(self).streams(), tag@)
                &&& d.sink < final(self).streams().len()
                &&& final(self).streams()[d.sink as int] == tag@
                &&& d.create is Some <==> !old(self).streams().contains(tag@)
                &&& d.create matches Some(suffix) ==> suffix@ == sink_suffix(tag@)
                &&& d.record.wf()
                &&& d.record@ == record@.truncated(old(self).policy().limit_for(tag@) as nat)
                &&& d.record@.captured_length <= old(self).policy().limit_for(tag@)
                &&& d.record@.captured_length <= record@.captured_length
                &&& d.bytes@ == record_bytes(d.record@)
            },
    {
        let kept = self.apply_policy(tag, record);
        let bytes = match encode_record(&kept) {
            Ok(bytes) => bytes,
            Err(e) => {
                return Err(e);
            },
        };
        let slot = self.sink_for(tag);
        let create = if slot.created {
            Some(suffix_for(tag))
        } else {
            None
        };
        Ok(Dispatch { sink: slot.index, create, record: kept, bytes })
    }
}

} // verus!
