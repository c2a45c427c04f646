use vstd::prelude::*;
use crate::record::{frame_model, PacketRecord, RecordModel, MAX_FRAME_LEN};

verus! {

/// What one read of a capture source gave: the frame, or nothing where the
/// read failed, and the time at which it returned.
pub ghost struct ReadModel {
    pub frame: Option<Seq<u8>>,
    pub unix_seconds: u64,
    pub subsec_nanos: u32,
}

/// The records a capture source sends for a run of reads, in order: one for
/// each read that gave a frame, none for a read that failed.
pub open spec fn sent_by(reads: Seq<ReadModel>) -> Seq<RecordModel>
    decreases reads.len(),
{
    if reads.len() == 0 {
        Seq::empty()
    } else {
        let earlier = sent_by(reads.drop_last());
        let read = reads.last();
        match read.frame {
            Some(frame) => earlier.push(frame_model(read.unix_seconds, read.subsec_nanos, frame)),
            None => earlier,
        }
    }
}

/// What a read of `bytes_read` bytes into `buffer` amounts to.
pub open spec fn read_model(
    bytes_read: Option<usize>,
    buffer: Seq<u8>,
    unix_seconds: u64,
    subsec_nanos: u32,
) -> ReadModel {
    ReadModel {
        frame: match bytes_read {
            Some(n) => Some(buffer.take(n as int)),
            None => None,
        },
        unix_seconds,
        subsec_nanos,
    }
}

/// What a capture source does after one read. There is no step that ends
/// the source: it reads on whatever a read gave.
#[derive(Debug)]
pub enum CaptureStep {
    /// Send the record on, under the interface's name.
    Emit(PacketRecord),
    /// Log a warning about the failed read.
    Warn,
}

impl CaptureStep {
    /// The records that the step sends: one or none.
    pub open spec fn sends(self) -> Seq<RecordModel> {
        match self {
            CaptureStep::Emit(record) => seq![record@],
            CaptureStep::Warn => Seq::empty(),
        }
    }
}

/// Decides what follows one read into `buffer` at the given time since the
/// epoch: a read of `n` bytes gives the record of the first `n` bytes of the
/// buffer, a failed read gives a warning and sends nothing.
pub fn after_read(bytes_read: Option<usize>, buffer: &[u8], unix_seconds: u64, subsec_nanos: u32) -> (step:
    CaptureStep)
    requires
        bytes_read matches Some(n) ==> n <= buffer@.len() && n <= MAX_FRAME_LEN,
    ensures
        bytes_read is None <==> step is Warn,
        step matches CaptureStep::Emit(record) ==> record.wf(),
        step.sends() == sent_by(seq![read_model(bytes_read, buffer@, unix_seconds, subsec_nanos)]),
        bytes_read matches Some(n) ==> (step matches CaptureStep::Emit(record) && record@
            == frame_model(unix_seconds, subsec_nanos, buffer@.take(n as int))),
{
    proof {
        let one = seq![read_model(bytes_read, buffer@, unix_seconds, subsec_nanos)];
        assert(one.drop_last() =~= Seq::<ReadModel>::empty());
        assert(sent_by(one.drop_last()) =~= Seq::<RecordModel>::empty());
    }
    match bytes_read {
        None => CaptureStep::Warn,
        Some(n) => {
            let frame = vstd::slice::slice_subrange(buffer, 0, n);
            let step = CaptureStep::Emit(PacketRecord::from_frame(unix_seconds, subsec_nanos, frame));
            assert(step.sends() =~= seq![
                frame_model(unix_seconds, subsec_nanos, buffer@.take(n as int)),
            ]);
            step
        },
    }
}

} // verus!
