use vstd::prelude::*;

verus! {

/// `TelnetFrame` is a single immutable frame of data: one application byte, a
/// single-byte command, a negotiation request, or a subnegotiation with its
/// (unescaped) payload bytes.  Negotiation frames carry the raw option code.
#[derive(Clone, Debug, PartialEq)]
pub enum TelnetFrame {
    /// Telnet Data
    Data(u8),
    /// No Operation
    NoOperation,
    /// End of urgent Data Stream
    DataMark,
    /// Operator pressed the Break key or the Attention key.
    Break,
    /// Interrupt current process.
    InterruptProcess,
    /// Cancel output from current process.
    AbortOutput,
    /// Request acknowledgment.
    AreYouThere,
    /// Request that operator erase the previous character.
    EraseCharacter,
    /// Request that operator erase the previous line.
    EraseLine,
    /// End of input for half-duplex connections.
    GoAhead,
    /// Request to start using specified option.
    Do(u8),
    /// Demand to stop using specified option.
    Dont(u8),
    /// Agreement to use the specified option.
    Will(u8),
    /// Reject the proposed option.
    Wont(u8),
    /// Subnegotiation payload, already unescaped.
    Subnegotiate(u8, Vec<u8>),
}

/// The mathematical value of a `TelnetFrame`: the same shape, with the
/// subnegotiation payload abstracted to a byte sequence.
pub enum FrameModel {
    Data(u8),
    NoOperation,
    DataMark,
    Break,
    InterruptProcess,
    AbortOutput,
    AreYouThere,
    EraseCharacter,
    EraseLine,
    GoAhead,
    Do(u8),
    Dont(u8),
    Will(u8),
    Wont(u8),
    Subnegotiate(u8, Seq<u8>),
}

impl View for TelnetFrame {
    type V = FrameModel;

    open spec fn view(&self) -> FrameModel {
        match self {
            TelnetFrame::Data(b) => FrameModel::Data(*b),
            TelnetFrame::NoOperation => FrameModel::NoOperation,
            TelnetFrame::DataMark => FrameModel::DataMark,
            TelnetFrame::Break => FrameModel::Break,
            TelnetFrame::InterruptProcess => FrameModel::InterruptProcess,
            TelnetFrame::AbortOutput => FrameModel::AbortOutput,
            TelnetFrame::AreYouThere => FrameModel::AreYouThere,
            TelnetFrame::EraseCharacter => FrameModel::EraseCharacter,
            TelnetFrame::EraseLine => FrameModel::EraseLine,
            TelnetFrame::GoAhead => FrameModel::GoAhead,
            TelnetFrame::Do(opt) => FrameModel::Do(*opt),
            TelnetFrame::Dont(opt) => FrameModel::Dont(*opt),
            TelnetFrame::Will(opt) => FrameModel::Will(*opt),
            TelnetFrame::Wont(opt) => FrameModel::Wont(*opt),
            TelnetFrame::Subnegotiate(opt, payload) => FrameModel::Subnegotiate(*opt, payload@),
        }
    }
}

} // verus!
