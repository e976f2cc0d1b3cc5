use vstd::prelude::*;

use crate::frame::FrameModel;
use crate::frame::TelnetFrame;
use crate::option::TelnetOption;
use crate::options::TerminalEndpoint;

verus! {

/// Output surfaced by the Network Virtual Terminal to the application.
#[derive(Clone, Debug, PartialEq)]
pub enum TerminalOutput {
    /// No Operation
    NoOperation,
    /// End of urgent Data Stream
    DataMark,
    /// Operator pressed the Break key or the Attention key.
    Break,
    /// Interrupt current process.
    InterruptProcess,
    /// Cancel output from current process.
    AbortOutput,
    /// Request acknowledgment.
    AreYouThere,
    /// Request that operator erase the previous character.
    EraseCharacter,
    /// Request that operator erase the previous line.
    EraseLine,
    /// End of input for half-duplex connections.
    GoAhead,
    /// Terminal received binary data.
    BinaryData(Vec<u8>),
    /// A direction of an option was negotiated on.
    OptionEnabled(TerminalEndpoint, TelnetOption),
    /// A direction of an option was negotiated off.
    OptionDisabled(TerminalEndpoint, TelnetOption),
    /// An inbound subnegotiation for an enabled option, payload unescaped.
    Subnegotiation(TelnetOption, Vec<u8>),
}

/// The mathematical value of a `TerminalOutput`.
pub enum OutputModel {
    NoOperation,
    DataMark,
    Break,
    InterruptProcess,
    AbortOutput,
    AreYouThere,
    EraseCharacter,
    EraseLine,
    GoAhead,
    BinaryData(Seq<u8>),
    OptionEnabled(TerminalEndpoint, TelnetOption),
    OptionDisabled(TerminalEndpoint, TelnetOption),
    Subnegotiation(TelnetOption, Seq<u8>),
}

impl View for TerminalOutput {
    type V = OutputModel;

    open spec fn view(&self) -> OutputModel {
        match self {
            TerminalOutput::NoOperation => OutputModel::NoOperation,
            TerminalOutput::DataMark => OutputModel::DataMark,
            TerminalOutput::Break => OutputModel::Break,
            TerminalOutput::InterruptProcess => OutputModel::InterruptProcess,
            TerminalOutput::AbortOutput => OutputModel::AbortOutput,
            TerminalOutput::AreYouThere => OutputModel::AreYouThere,
            TerminalOutput::EraseCharacter => OutputModel::EraseCharacter,
            TerminalOutput::EraseLine => OutputModel::EraseLine,
            TerminalOutput::GoAhead => OutputModel::GoAhead,
            TerminalOutput::BinaryData(data) => OutputModel::BinaryData(data@),
            TerminalOutput::OptionEnabled(endpoint, option) => OutputModel::OptionEnabled(
                *endpoint,
                *option,
            ),
            TerminalOutput::OptionDisabled(endpoint, option) => OutputModel::OptionDisabled(
                *endpoint,
                *option,
            ),
            TerminalOutput::Subnegotiation(option, payload) => OutputModel::Subnegotiation(
                *option,
                payload@,
            ),
        }
    }
}

/// The value of an optional output.
pub open spec fn spec_output_view(o: Option<TerminalOutput>) -> Option<OutputModel> {
    match o {
        None => None,
        Some(output) => Some(output@),
    }
}

/// The value of an optional frame.
pub open spec fn spec_frame_view(o: Option<TelnetFrame>) -> Option<FrameModel> {
    match o {
        None => None,
        Some(frame) => Some(frame@),
    }
}

/// Input the application hands the Network Virtual Terminal to put on the
/// wire.
#[derive(Clone, Debug, PartialEq)]
pub enum TerminalInput {
    /// No Operation
    NoOperation,
    /// End of urgent Data Stream
    DataMark,
    /// Operator pressed the Break key or the Attention key.
    Break,
    /// Interrupt current process.
    InterruptProcess,
    /// Cancel output from current process.
    AbortOutput,
    /// Request acknowledgment.
    AreYouThere,
    /// Request that operator erase the previous character.
    EraseCharacter,
    /// Request that operator erase the previous line.
    EraseLine,
    /// End of input for half-duplex connections.
    GoAhead,
    /// Send binary data.
    BinaryData(Vec<u8>),
    /// Ask to enable the local direction of an option.
    EnableLocalOption(TelnetOption),
    /// Ask to disable the local direction of an option.
    DisableLocalOption(TelnetOption),
    /// Ask the peer to enable its direction of an option.
    EnableRemoteOption(TelnetOption),
    /// Ask the peer to disable its direction of an option.
    DisableRemoteOption(TelnetOption),
    /// Send a subnegotiation, payload in pre-escape form.
    Subnegotiation(TelnetOption, Vec<u8>),
}

} // verus!
