use vstd::prelude::*;
use vstd::string::StringExecFns;
use byteorder::BigEndian;
use pcap_file::pcap::{PacketHeader, PcapHeader};
use pcap_file::{PcapError, TsResolution};
use crate::error::Error;
use crate::record::{PacketRecord, RecordModel};

verus! {

/// Bytes in the header that precedes every record.
pub const RECORD_HEADER_LEN: usize = 16;

/// Bytes in the header that opens a capture file or stream.
pub const FILE_HEADER_LEN: usize = 24;

/// The longest payload, and the largest wire length, that a reader of the
/// format accepts.
pub const MAX_DECODED_LEN: u32 = 0xFFFF;

/// The largest microsecond field whose nanosecond value fits in 32 bits.
pub const MAX_MICROS: u32 = 4_294_967;

/// The four numbers of a record header.
#[derive(Debug, Clone, Copy)]
pub struct HeaderFields {
    pub seconds: u32,
    pub nanoseconds: u32,
    pub captured_length: u32,
    pub original_length: u32,
}

/// The error type of `pcap_file`, carried unopened from the calls that
/// return it to where it is turned into this library's own.
#[verifier::external_type_specification]
#[verifier::external_body]
pub struct ExPcapError(PcapError);

/// A 32-bit number as four bytes, most significant first.
pub open spec fn be32(x: u32) -> Seq<u8> {
    seq![
        (x / 0x100_0000) as u8,
        ((x / 0x1_0000) % 0x100) as u8,
        ((x / 0x100) % 0x100) as u8,
        (x % 0x100) as u8,
    ]
}

/// The number that four bytes spell, most significant first.
pub open spec fn be32_value(bytes: Seq<u8>) -> nat
    recommends
        bytes.len() == 4,
{
    (bytes[0] * 0x100_0000 + bytes[1] * 0x1_0000 + bytes[2] * 0x100 + bytes[3]) as nat
}

/// The sixteen bytes of a record header. The sub-second part is written in
/// whole microseconds.
pub open spec fn header_bytes(fields: HeaderFields) -> Seq<u8> {
    be32(fields.seconds) + be32(fields.nanoseconds / 1000) + be32(fields.captured_length) + be32(
        fields.original_length,
    )
}

/// The header fields of a record.
pub open spec fn fields_of(record: RecordModel) -> HeaderFields {
    HeaderFields {
        seconds: record.seconds,
        nanoseconds: record.nanoseconds,
        captured_length: record.captured_length,
        original_length: record.original_length,
    }
}

/// A record as it is handed to a sink: header, then payload.
pub open spec fn record_bytes(record: RecordModel) -> Seq<u8> {
    header_bytes(fields_of(record)) + record.payload
}

/// The header that opens every sink file: big-endian magic number for
/// microsecond stamps, format version 2.4, no time zone correction, no
/// accuracy, snap length 65535, link type Ethernet.
pub open spec fn file_header_bytes() -> Seq<u8> {
    seq![
        0xa1u8, 0xb2u8, 0xc3u8, 0xd4u8,
        0u8, 2u8, 0u8, 4u8,
        0u8, 0u8, 0u8, 0u8,
        0u8, 0u8, 0u8, 0u8,
        0u8, 0u8, 0xffu8, 0xffu8,
        0u8, 0u8, 0u8, 1u8,
    ]
}

/// What the first sixteen bytes spell as header fields, microseconds scaled
/// to nanoseconds.
pub open spec fn parsed_fields(bytes: Seq<u8>) -> HeaderFields
    recommends
        bytes.len() >= 16,
{
    HeaderFields {
        seconds: be32_value(bytes.subrange(0, 4)) as u32,
        nanoseconds: (be32_value(bytes.subrange(4, 8)) * 1000) as u32,
        captured_length: be32_value(bytes.subrange(8, 12)) as u32,
        original_length: be32_value(bytes.subrange(12, 16)) as u32,
    }
}

/// Whether `bytes` start with a whole header whose microseconds fit as
/// nanoseconds in 32 bits.
pub open spec fn header_readable(bytes: Seq<u8>) -> bool {
    bytes.len() >= 16 && be32_value(bytes.subrange(4, 8)) <= MAX_MICROS
}

/// Whether header fields are ones a reader of the format accepts.
pub open spec fn acceptable(fields: HeaderFields) -> bool {
    &&& fields.captured_length <= MAX_DECODED_LEN
    &&& fields.original_length <= MAX_DECODED_LEN
    &&& fields.captured_length <= fields.original_length
}

/// The record at the front of `bytes`, with the number of bytes it takes up,
/// where there is a whole acceptable one.
pub open spec fn parse_record(bytes: Seq<u8>) -> Option<(RecordModel, nat)> {
    if bytes.len() < 16 {
        None
    } else if be32_value(bytes.subrange(4, 8)) > MAX_MICROS {
        None
    } else {
        let fields = parsed_fields(bytes);
        if !acceptable(fields) || bytes.len() < 16 + fields.captured_length {
            None
        } else {
            Some(
                (
                    RecordModel {
                        seconds: fields.seconds,
                        nanoseconds: fields.nanoseconds,
                        captured_length: fields.captured_length,
                        original_length: fields.original_length,
                        payload: bytes.subrange(16, 16 + fields.captured_length),
                    },
                    (16 + fields.captured_length) as nat,
                ),
            )
        }
    }
}

/// The text of an I/O error of kind `Other` that carries nothing else.
pub open spec fn other_error_text() -> Seq<char> {
    "other error"@
}

/// Tells the variants of `PcapError` of `pcap_file` apart: for `IoError`
/// the text of the I/O error it carries, for every other variant nothing.
#[verifier::external_body]
fn carried_io_text(pcap_error: PcapError) -> (text: Option<String>) {
    match pcap_error {
        PcapError::IoError(e) => Some(e.to_string()),
        _ => None,
    }
}

/// The I/O error that stands for a failed outside call: with the text of
/// the I/O error behind it where there was one, a plain one of kind `Other`
/// where there was none.
pub fn io_error_from(carried: Option<String>) -> (e: Error)
    ensures
        e matches Error::Io(text) && text@ == (match carried {
            Some(given) => given@,
            None => other_error_text(),
        }),
{
    match carried {
        Some(given) => Error::Io(given),
        None => Error::Io(String::from_str("other error")),
    }
}

/// Turns an error of `pcap_file` into this library's own `Io` variant.
pub(crate) fn pcap_to_io_error(pcap_error: PcapError) -> (e: Error)
    ensures
        e is Io,
{
    io_error_from(carried_io_text(pcap_error))
}

/// Calls `PacketHeader::write_to` of `pcap_file`, big-endian and with
/// microsecond resolution, on an empty buffer. The call fails only where
/// the writer does, and a buffer in memory takes every write. The buffer
/// then holds the four fields as 32-bit big-endian numbers, the nanoseconds
/// divided by 1000.
#[verifier::external_body]
fn write_record_header(fields: HeaderFields) -> (r: Result<Vec<u8>, PcapError>)
    ensures
        r is Ok,
        r matches Ok(bytes) ==> bytes@ == header_bytes(fields),
{
    let mut out = Vec::new();
    let header = PacketHeader::new(
        fields.seconds,
        fields.nanoseconds,
        fields.captured_length,
        fields.original_length,
    );
    header.write_to::<_, BigEndian>(&mut out, TsResolution::MicroSecond)?;
    Ok(out)
}

/// Calls `PcapHeader::write_to` of `pcap_file`, big-endian, on the default
/// `PcapHeader` and an empty buffer. The call fails only where the writer
/// does, and a buffer in memory takes every write. The buffer then holds
/// the 24 bytes of that header.
#[verifier::external_body]
fn write_file_header() -> (r: Result<Vec<u8>, PcapError>)
    ensures
        r is Ok,
        r matches Ok(bytes) ==> bytes@ == file_header_bytes(),
{
    let mut out = Vec::new();
    let header: PcapHeader = Default::default();
    header.write_to::<_, BigEndian>(&mut out)?;
    Ok(out)
}

/// Calls `PacketHeader::from_slice` of `pcap_file`, big-endian and with
/// microsecond resolution. It succeeds exactly on sixteen bytes or more
/// whose lengths are at most 65535 with the captured one not above the
/// original, and then returns the four numbers, the microseconds multiplied
/// by 1000. That product must fit: the outside function does not guard it.
#[verifier::external_body]
fn read_record_header(bytes: &[u8]) -> (r: Result<HeaderFields, PcapError>)
    requires
        bytes@.len() >= 16 ==> be32_value(bytes@.subrange(4, 8)) <= MAX_MICROS,
    ensures
        bytes@.len() >= 16 && acceptable(parsed_fields(bytes@)) ==> r is Ok,
        r matches Ok(fields) ==> bytes@.len() >= 16 && fields == parsed_fields(bytes@)
            && acceptable(fields),
{
    PacketHeader::from_slice::<BigEndian>(bytes, TsResolution::MicroSecond).map(
        |(_, h)|
            HeaderFields {
                seconds: h.ts_sec,
                nanoseconds: h.ts_nsec,
                captured_length: h.incl_len,
                original_length: h.orig_len,
            },
    )
}

/// The header fields of a record.
pub fn header_fields(record: &PacketRecord) -> (fields: HeaderFields)
    ensures
        fields == fields_of(record@),
{
    HeaderFields {
        seconds: record.capture_seconds(),
        nanoseconds: record.capture_nanoseconds(),
        captured_length: record.captured_length(),
        original_length: record.original_length(),
    }
}

/// Puts a payload behind an encoded header.
pub fn frame_record(header: Vec<u8>, payload: &[u8]) -> (bytes: Vec<u8>)
    ensures
        bytes@ == header@ + payload@,
{
    let mut bytes = header;
    bytes.extend_from_slice(payload);
    bytes
}

/// Encodes a record for a sink. Every record can be encoded.
pub fn encode_record(record: &PacketRecord) -> (r: Result<Vec<u8>, Error>)
    ensures
        r is Ok,
        r matches Ok(bytes) ==> bytes@ == record_bytes(record@),
{
    match write_record_header(header_fields(record)) {
        Ok(header) => Ok(frame_record(header, record.payload())),
        Err(e) => Err(pcap_to_io_error(e)),
    }
}

/// The bytes that open a new sink file.
pub fn file_header() -> (r: Result<Vec<u8>, Error>)
    ensures
        r is Ok,
        r matches Ok(bytes) ==> bytes@ == file_header_bytes(),
{
    match write_file_header() {
        Ok(bytes) => Ok(bytes),
        Err(e) => Err(pcap_to_io_error(e)),
    }
}

/// Reads four bytes at `at` as a big-endian number.
pub fn read_be32(bytes: &[u8], at: usize) -> (value: u32)
    requires
        at + 4 <= bytes@.len(),
    ensures
        value == be32_value(bytes@.subrange(at as int, at + 4)),
{
    let b0 = bytes[at] as u32;
    let b1 = bytes[at + 1] as u32;
    let b2 = bytes[at + 2] as u32;
    let b3 = bytes[at + 3] as u32;
    b0 * 0x100_0000 + b1 * 0x1_0000 + b2 * 0x100 + b3
}

/// Takes the record that decoded header fields announce from `bytes`,
/// which start with the header, and says how many bytes it took up.
pub fn take_record(fields: HeaderFields, bytes: &[u8]) -> (r: Result<(PacketRecord, usize), Error>)
    ensures
        r is Ok <==> fields.captured_length <= fields.original_length && bytes@.len() >= 16
            + fields.captured_length,
        r matches Ok((record, used)) ==> record.wf() && used == 16 + fields.captured_length
            && record@ == (RecordModel {
            seconds: fields.seconds,
            nanoseconds: fields.nanoseconds,
            captured_length: fields.captured_length,
            original_length: fields.original_length,
            payload: bytes@.subrange(16, 16 + fields.captured_length),
        }),
        r matches Err(e) ==> e is Malformed,
{
    let captured = fields.captured_length as usize;
    if fields.captured_length > fields.original_length || bytes.len() < RECORD_HEADER_LEN
        || bytes.len() - RECORD_HEADER_LEN < captured {
        return Err(Error::Malformed);
    }
    let used: usize = RECORD_HEADER_LEN + captured;
    let body = vstd::slice::slice_subrange(bytes, RECORD_HEADER_LEN, used);
    match PacketRecord::new(
        fields.seconds,
        fields.nanoseconds,
        fields.original_length,
        vstd::slice::slice_to_vec(body),
    ) {
        Ok(record) => Ok((record, used)),
        Err(e) => Err(e),
    }
}

/// Decodes the header at the front of `bytes`. Fewer than sixteen bytes,
/// or microseconds that do not fit as nanoseconds, are malformed; lengths
/// that a reader of the format refuses are an I/O error.
pub fn decode_header(bytes: &[u8]) -> (r: Result<HeaderFields, Error>)
    ensures
        r is Ok <==> header_readable(bytes@) && acceptable(parsed_fields(bytes@)),
        r matches Ok(fields) ==> fields == parsed_fields(bytes@),
        r matches Err(e) ==> (e is Malformed <==> !header_readable(bytes@)) && (e is Io
            <==> header_readable(bytes@)),
{
    if bytes.len() < RECORD_HEADER_LEN {
        return Err(Error::Malformed);
    }
    if read_be32(bytes, 4) > MAX_MICROS {
        return Err(Error::Malformed);
    }
    match read_record_header(bytes) {
        Ok(fields) => Ok(fields),
        Err(e) => Err(pcap_to_io_error(e)),
    }
}

/// Decodes the record at the front of `bytes` and says how many bytes it
/// took up. It succeeds exactly where the bytes hold a whole acceptable
/// record. A header with lengths that a reader of the format refuses is
/// an I/O error; everything else that fails is malformed.
pub fn decode_record(bytes: &[u8]) -> (r: Result<(PacketRecord, usize), Error>)
    ensures
        r is Ok <==> parse_record(bytes@) is Some,
        r matches Ok((record, used)) ==> record.wf() && parse_record(bytes@) == Some(
            (record@, used as nat),
        ),
        r matches Err(e) ==> (e is Io <==> header_readable(bytes@) && !acceptable(
            parsed_fields(bytes@),
        )) && (e is Malformed <==> !(header_readable(bytes@) && !acceptable(
            parsed_fields(bytes@),
        ))),
{
    match decode_header(bytes) {
        Ok(fields) => take_record(fields, bytes),
        Err(e) => Err(e),
    }
}

} // verus!
