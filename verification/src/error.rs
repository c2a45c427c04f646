use vstd::prelude::*;
use vstd::string::StringExecFns;

verus! {

/// What can go wrong between a capture source and a sink.
#[derive(Debug)]
pub enum Error {
    /// An input or output operation failed; the text says how.
    Io(String),
    /// A number could not be parsed; the text says how.
    ParseIntError(String),
    /// The consumer of the shared channel is gone.
    ChannelSend,
    /// Every producer of the shared channel is gone.
    ChannelRecv,
    /// A record's lengths contradict its payload, or a tagged envelope is
    /// shorter than the tag it announces.
    Malformed,
}

impl Error {
    /// The text shown to an operator for this error.
    pub open spec fn spec_message(self) -> Seq<char> {
        match self {
            Error::Io(text) => text@,
            Error::ParseIntError(text) => text@,
            Error::ChannelSend => "Channel send failed"@,
            Error::ChannelRecv => "Channel receive failed"@,
            Error::Malformed => "Malformed packet record"@,
        }
    }

    /// Renders the error as text.
    pub fn message(&self) -> (text: String)
        ensures
            text@ == self.spec_message(),
    {
        match self {
            Error::Io(text) => text.clone(),
            Error::ParseIntError(text) => text.clone(),
            Error::ChannelSend => String::from_str("Channel send failed"),
            Error::ChannelRecv => String::from_str("Channel receive failed"),
            Error::Malformed => String::from_str("Malformed packet record"),
        }
    }
}

} // verus!
