use vstd::prelude::*;
use crate::error::Error;
use crate::record::PacketRecord;

verus! {

/// The text that `String::from_utf8_lossy` makes of a byte sequence: the
/// bytes read as UTF-8, each invalid sequence replaced by U+FFFD.
pub uninterp spec fn utf8_lossy(bytes: Seq<u8>) -> Seq<char>;

/// Calls `String::from_utf8_lossy` of std and owns the result. The text
/// depends on the bytes alone.
#[verifier::external_body]
fn lossy_string(bytes: &[u8]) -> (text: String)
    ensures
        text@ == utf8_lossy(bytes@),
{
    String::from_utf8_lossy(bytes).into_owned()
}

/// The tag that an envelope carries in front of its frame.
pub fn read_tag(envelope: &PacketRecord) -> (r: Result<String, Error>)
    requires
        envelope.wf(),
    ensures
        r is Ok <==> envelope@.has_tag(),
        r matches Ok(tag) ==> tag@ == utf8_lossy(envelope@.tag_bytes()),
        r matches Err(e) ==> e is Malformed,
{
    match envelope.tag_end() {
        None => Err(Error::Malformed),
        Some(end) => {
            let raw = vstd::slice::slice_subrange(envelope.payload(), 1, end);
            Ok(lossy_string(raw))
        },
    }
}

/// Splits an envelope of a tagged stream into its tag and the record of the
/// frame alone. An envelope too short for the tag it announces is refused.
pub fn demultiplex(envelope: PacketRecord) -> (r: Result<(String, PacketRecord), Error>)
    requires
        envelope.wf(),
    ensures
        r is Ok <==> envelope@.has_tag(),
        r matches Ok((tag, record)) ==> tag@ == utf8_lossy(envelope@.tag_bytes()) && record.wf()
            && record@ == envelope@.detagged(),
        r matches Err(e) ==> e is Malformed,
{
    let tag = match read_tag(&envelope) {
        Ok(tag) => tag,
        Err(e) => {
            return Err(e);
        },
    };
    match envelope.strip_tag() {
        Ok(record) => Ok((tag, record)),
        Err(e) => Err(e),
    }
}

} // verus!
