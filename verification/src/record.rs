use vstd::prelude::*;
use crate::error::Error;

verus! {

/// The largest frame a capture source reads in one piece.
pub const MAX_FRAME_LEN: usize = 65536;

/// What a packet record holds, as mathematics.
pub ghost struct RecordModel {
    pub seconds: u32,
    pub nanoseconds: u32,
    pub captured_length: u32,
    pub original_length: u32,
    pub payload: Seq<u8>,
}

impl RecordModel {
    /// The stored bytes are exactly the captured ones, and no more were
    /// captured than were on the wire.
    pub open spec fn well_formed(self) -> bool {
        &&& self.payload.len() == self.captured_length
        &&& self.captured_length <= self.original_length
    }

    /// The record cut down to at most `limit` stored bytes. The length seen
    /// on the wire stays as it was.
    pub open spec fn truncated(self, limit: nat) -> RecordModel {
        let kept: nat = if self.captured_length <= limit {
            self.captured_length as nat
        } else {
            limit
        };
        RecordModel {
            captured_length: kept as u32,
            payload: self.payload.take(kept as int),
            ..self
        }
    }

    /// Whether the payload starts with a length byte and a tag of that length.
    pub open spec fn has_tag(self) -> bool {
        self.payload.len() >= 1 && self.payload.len() >= 1 + self.payload[0]
    }

    /// Bytes taken up by the length byte and the tag.
    pub open spec fn tag_end(self) -> nat {
        (1 + self.payload[0]) as nat
    }

    /// The raw bytes of the tag.
    pub open spec fn tag_bytes(self) -> Seq<u8> {
        self.payload.subrange(1, self.tag_end() as int)
    }

    /// The record without its tag: both lengths shrink by the tag overhead.
    pub open spec fn detagged(self) -> RecordModel {
        RecordModel {
            captured_length: (self.captured_length - self.tag_end()) as u32,
            original_length: (self.original_length - self.tag_end()) as u32,
            payload: self.payload.skip(self.tag_end() as int),
            ..self
        }
    }
}

/// The record of a frame read whole at the given time since the epoch.
/// Seconds beyond 32 bits wrap.
pub open spec fn frame_model(unix_seconds: u64, subsec_nanos: u32, frame: Seq<u8>) -> RecordModel {
    RecordModel {
        seconds: (unix_seconds % 0x1_0000_0000) as u32,
        nanoseconds: subsec_nanos,
        captured_length: frame.len() as u32,
        original_length: frame.len() as u32,
        payload: frame,
    }
}

/// One captured frame with its capture time and lengths.
#[derive(Debug)]
pub struct PacketRecord {
    capture_seconds: u32,
    capture_nanoseconds: u32,
    captured_length: u32,
    original_length: u32,
    payload: Vec<u8>,
}

impl View for PacketRecord {
    type V = RecordModel;

    closed spec fn view(&self) -> RecordModel {
        RecordModel {
            seconds: self.capture_seconds,
            nanoseconds: self.capture_nanoseconds,
            captured_length: self.captured_length,
            original_length: self.original_length,
            payload: self.payload@,
        }
    }
}

impl PacketRecord {
    /// The invariant every record keeps.
    pub open spec fn wf(&self) -> bool {
        self@.well_formed()
    }

    /// A record of `payload`, of which `original_length` bytes were on the
    /// wire. Refused when more bytes are stored than were on the wire.
    pub fn new(seconds: u32, nanoseconds: u32, original_length: u32, payload: Vec<u8>) -> (r: Result<
        PacketRecord,
        Error,
    >)
        ensures
            r is Ok <==> payload@.len() <= original_length,
            r matches Ok(record) ==> record.wf() && record@ == (RecordModel {
                seconds,
                nanoseconds,
                captured_length: payload@.len() as u32,
                original_length,
                payload: payload@,
            }),
            r matches Err(e) ==> e is Malformed,
    {
        if payload.len() > original_length as usize {
            return Err(Error::Malformed);
        }
        let captured_length = payload.len() as u32;
        Ok(
            PacketRecord {
                capture_seconds: seconds,
                capture_nanoseconds: nanoseconds,
                captured_length,
                original_length,
                payload,
            },
        )
    }

    /// The record of a frame just read from an interface at the given time
    /// since the epoch. Seconds beyond 32 bits wrap.
    pub fn from_frame(unix_seconds: u64, subsec_nanos: u32, frame: &[u8]) -> (record: PacketRecord)
        requires
            frame@.len() <= MAX_FRAME_LEN,
        ensures
            record.wf(),
            record@ == frame_model(unix_seconds, subsec_nanos, frame@),
    {
        let length = frame.len() as u32;
        PacketRecord {
            capture_seconds: (unix_seconds % 0x1_0000_0000) as u32,
            capture_nanoseconds: subsec_nanos,
            captured_length: length,
            original_length: length,
            payload: vstd::slice::slice_to_vec(frame),
        }
    }

    /// Whole seconds of the capture time.
    pub fn capture_seconds(&self) -> (v: u32)
        ensures
            v == self@.seconds,
    {
        self.capture_seconds
    }

    /// Nanoseconds of the capture time within its second.
    pub fn capture_nanoseconds(&self) -> (v: u32)
        ensures
            v == self@.nanoseconds,
    {
        self.capture_nanoseconds
    }

    /// Number of payload bytes stored.
    pub fn captured_length(&self) -> (v: u32)
        ensures
            v == self@.captured_length,
    {
        self.captured_length
    }

    /// Number of payload bytes seen on the wire.
    pub fn original_length(&self) -> (v: u32)
        ensures
            v == self@.original_length,
    {
        self.original_length
    }

    /// The stored bytes.
    pub fn payload(&self) -> (bytes: &[u8])
        ensures
            bytes@ == self@.payload,
    {
        self.payload.as_slice()
    }

    /// Cuts the stored bytes down to at most `limit`.
    pub fn truncate(&mut self, limit: usize)
        requires
            old(self).wf(),
        ensures
            final(self).wf(),
            final(self)@ == old(self)@.truncated(limit as nat),
    {
        let captured = self.captured_length as usize;
        let kept: usize = if captured <= limit {
            captured
        } else {
            limit
        };
        self.captured_length = kept as u32;
        self.payload.truncate(kept);
    }

    /// Where the frame starts behind the tag, if the payload holds a whole
    /// tag.
    pub fn tag_end(&self) -> (end: Option<usize>)
        requires
            self.wf(),
        ensures
            end is Some <==> self@.has_tag(),
            end matches Some(n) ==> n == self@.tag_end(),
    {
        if self.payload.len() < 1 {
            return None;
        }
        let end: usize = 1 + self.payload[0] as usize;
        if self.payload.len() < end {
            None
        } else {
            Some(end)
        }
    }

    /// Removes the length byte and the tag from the front of the payload.
    pub fn strip_tag(self) -> (r: Result<PacketRecord, Error>)
        requires
            self.wf(),
        ensures
            r is Ok <==> self@.has_tag(),
            r matches Ok(record) ==> record.wf() && record@ == self@.detagged(),
            r matches Err(e) ==> e is Malformed,
    {
        match self.tag_end() {
            None => Err(Error::Malformed),
            Some(end) => {
                let rest = vstd::slice::slice_subrange(self.payload.as_slice(), end, self.payload.len());
                let payload = vstd::slice::slice_to_vec(rest);
                let overhead = end as u32;
                Ok(
                    PacketRecord {
                        capture_seconds: self.capture_seconds,
                        capture_nanoseconds: self.capture_nanoseconds,
                        captured_length: self.captured_length - overhead,
                        original_length: self.original_length - overhead,
                        payload,
                    },
                )
            },
        }
    }
}

} // verus!
