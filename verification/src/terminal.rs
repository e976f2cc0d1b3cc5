use vstd::prelude::*;

use crate::bytebuf::byte_content;
use crate::codec::encode_frame;
use crate::codec::lemma_escape_len;
use crate::codec::lemma_escape_push;
use crate::codec::spec_decode;
use crate::codec::spec_encode;
use crate::codec::spec_escape;
use crate::codec::CodecModel;
use crate::codec::DecoderState;
use crate::codec::StepOut;
use crate::codec::TelnetCodec;
use crate::codec::PAYLOAD_LIMIT;
use crate::error::DecodeError;
use crate::frame::FrameModel;
use crate::frame::TelnetFrame;
use crate::negotiation::NegotiationState;
use crate::option::lemma_option_code_round_trip;
use crate::option::spec_option_code;
use crate::option::spec_option_of;
use crate::option::TelnetOption;
use crate::options::TerminalEndpoint;
use crate::output::spec_frame_view;
use crate::output::spec_output_view;
use crate::output::OutputModel;
use crate::output::TerminalInput;
use crate::output::TerminalOutput;
use crate::state::spec_default_option_state;
use crate::state::spec_intent_event;
use crate::state::spec_receive_event;
use crate::state::ConfigurationError;
use crate::state::NegotiationError;
use crate::state::OptionState;
use crate::state::TerminalConfiguration;

verus! {

/// How many inbound data bytes are gathered before they are surfaced as
/// one output.
pub const DATA_BUFFER_LIMIT: usize = 32768;

/// How strictly the terminal treats 8-bit data outside a negotiated binary
/// mode.
#[derive(Clone, Copy, Debug, Eq, PartialEq, Structural)]
pub struct Compatibility {
    /// Pass 8-bit outbound data even while binary mode is off.
    pub send_unicode_while_normal: bool,
    /// Pass 8-bit inbound data even while binary mode is off.
    pub recv_unicode_while_normal: bool,
}

impl Default for Compatibility {
    /// Strict by default: no 8-bit data outside binary mode.
    fn default() -> (r: Compatibility)
        ensures
            r == (Compatibility { send_unicode_while_normal: false, recv_unicode_while_normal: false }),
    {
        Compatibility { send_unicode_while_normal: false, recv_unicode_while_normal: false }
    }
}

/// A request the terminal cannot put on the wire.
#[derive(Clone, Copy, Debug, Eq, PartialEq, Structural)]
pub enum TerminalError {
    /// A subnegotiation was submitted for an option whose local direction
    /// is not enabled.
    OptionNotEnabled(TelnetOption),
    /// A contradictory negotiation request; the engine queued the reversal
    /// and reports the contradiction.
    ContradictoryRequest(TelnetOption),
}

/// The mathematical value of the terminal: its codec, its option table,
/// its pending inbound data, and its compatibility switches.
pub struct NvtModel {
    pub codec: CodecModel,
    pub options: Seq<OptionState>,
    pub buffer: Seq<u8>,
    pub compatibility: Compatibility,
}

/// What handling one inbound frame does: the new option table and data
/// buffer, up to two outputs to surface (flushed data first), and a
/// negotiation reply to put on the wire.
pub struct HandleResult {
    pub options: Seq<OptionState>,
    pub buffer: Seq<u8>,
    pub flushed: Option<OutputModel>,
    pub event: Option<OutputModel>,
    pub reply: Option<FrameModel>,
}

/// Pending data as an output, if there is any.
pub open spec fn spec_flush(buffer: Seq<u8>) -> Option<OutputModel> {
    if buffer.len() > 0 {
        Some(OutputModel::BinaryData(buffer))
    } else {
        None
    }
}

/// The frame the engine's reply carries, if it carries one; a violation
/// leaves the reply empty.
pub open spec fn spec_reply_frame(res: Result<Option<TelnetFrame>, NegotiationError>) -> Option<
    FrameModel,
> {
    match res {
        Ok(Some(frame)) => Some(frame@),
        _ => None,
    }
}

/// An option-state-change output, surfaced only when a direction crosses
/// into or out of enabled.
pub open spec fn spec_direction_event(
    before: NegotiationState,
    after: NegotiationState,
    endpoint: TerminalEndpoint,
    option: TelnetOption,
) -> Option<OutputModel> {
    if before != NegotiationState::Yes && after == NegotiationState::Yes {
        Some(OutputModel::OptionEnabled(endpoint, option))
    } else if before == NegotiationState::Yes && after != NegotiationState::Yes {
        Some(OutputModel::OptionDisabled(endpoint, option))
    } else {
        None
    }
}

/// Handling one received negotiation frame: pending data is flushed, the
/// engine is fed, its reply goes to the wire, and a state-change event is
/// surfaced when the direction crossed enabled.
pub open spec fn spec_handle_negotiation(
    options: Seq<OptionState>,
    buffer: Seq<u8>,
    local_track: bool,
    positive: bool,
    code: u8,
) -> HandleResult {
    let option = spec_option_of(code);
    let (updated, res) = spec_receive_event(options, option, local_track, positive);
    let endpoint = if local_track {
        TerminalEndpoint::Local
    } else {
        TerminalEndpoint::Remote
    };
    let before = if local_track {
        options[code as int].local
    } else {
        options[code as int].remote
    };
    let after = if local_track {
        updated[code as int].local
    } else {
        updated[code as int].remote
    };
    HandleResult {
        options: updated,
        buffer: Seq::empty(),
        flushed: spec_flush(buffer),
        event: spec_direction_event(before, after, endpoint, option),
        reply: spec_reply_frame(res),
    }
}

/// The terminal's classification of one inbound frame: data accumulates,
/// commands surface, negotiation feeds the engine, and a subnegotiation
/// surfaces only while the remote direction is enabled.
pub open spec fn spec_handle_frame(options: Seq<OptionState>, buffer: Seq<u8>, frame: FrameModel) -> HandleResult {
    match frame {
        FrameModel::Data(b) => {
            let grown = buffer.push(b);
            if grown.len() >= DATA_BUFFER_LIMIT {
                HandleResult {
                    options,
                    buffer: Seq::empty(),
                    flushed: Some(OutputModel::BinaryData(grown)),
                    event: None,
                    reply: None,
                }
            } else {
                HandleResult { options, buffer: grown, flushed: None, event: None, reply: None }
            }
        },
        FrameModel::NoOperation => HandleResult {
            options,
            buffer: Seq::empty(),
            flushed: spec_flush(buffer),
            event: Some(OutputModel::NoOperation),
            reply: None,
        },
        FrameModel::DataMark => HandleResult {
            options,
            buffer: Seq::empty(),
            flushed: spec_flush(buffer),
            event: Some(OutputModel::DataMark),
            reply: None,
        },
        FrameModel::Break => HandleResult {
            options,
            buffer: Seq::empty(),
            flushed: spec_flush(buffer),
            event: Some(OutputModel::Break),
            reply: None,
        },
        FrameModel::InterruptProcess => HandleResult {
            options,
            buffer: Seq::empty(),
            flushed: spec_flush(buffer),
            event: Some(OutputModel::InterruptProcess),
            reply: None,
        },
        FrameModel::AbortOutput => HandleResult {
            options,
            buffer: Seq::empty(),
            flushed: spec_flush(buffer),
            event: Some(OutputModel::AbortOutput),
            reply: None,
        },
        FrameModel::AreYouThere => HandleResult {
            options,
            buffer: Seq::empty(),
            flushed: spec_flush(buffer),
            event: Some(OutputModel::AreYouThere),
            reply: None,
        },
        FrameModel::EraseCharacter => HandleResult {
            options,
            buffer: Seq::empty(),
            flushed: spec_flush(buffer),
            event: Some(OutputModel::EraseCharacter),
            reply: None,
        },
        FrameModel::EraseLine => HandleResult {
            options,
            buffer: Seq::empty(),
            flushed: spec_flush(buffer),
            event: Some(OutputModel::EraseLine),
            reply: None,
        },
        FrameModel::GoAhead => HandleResult {
            options,
            buffer: Seq::empty(),
            flushed: spec_flush(buffer),
            event: Some(OutputModel::GoAhead),
            reply: None,
        },
        FrameModel::Do(code) => spec_handle_negotiation(options, buffer, true, true, code),
        FrameModel::Dont(code) => spec_handle_negotiation(options, buffer, true, false, code),
        FrameModel::Will(code) => spec_handle_negotiation(options, buffer, false, true, code),
        FrameModel::Wont(code) => spec_handle_negotiation(options, buffer, false, false, code),
        FrameModel::Subnegotiate(code, payload) => {
            let option = spec_option_of(code);
            let event = if options[code as int].remote == NegotiationState::Yes {
                Some(OutputModel::Subnegotiation(option, payload))
            } else {
                None
            };
            HandleResult { options, buffer: Seq::empty(), flushed: spec_flush(buffer), event, reply: None }
        },
    }
}

/// How many payload bytes an input may put on the wire; commands and
/// negotiation requests are covered by the fixed envelope allowance.
pub open spec fn spec_input_payload_len(input: TerminalInput) -> nat {
    match input {
        TerminalInput::BinaryData(data) => data@.len(),
        TerminalInput::Subnegotiation(_, payload) => payload@.len(),
        _ => 0,
    }
}

/// The Telnet Network Virtual Terminal: the codec, the Q-method option
/// table and the inbound data buffer, composed behind one synchronous
/// surface.  A transport reads and writes the byte buffers; the terminal
/// never touches the network itself.
pub struct NetworkVirtualTerminal {
    codec: TelnetCodec,
    configuration: TerminalConfiguration,
    buffer: Vec<u8>,
    compatibility: Compatibility,
}

impl View for NetworkVirtualTerminal {
    type V = NvtModel;

    closed spec fn view(&self) -> NvtModel {
        NvtModel {
            codec: self.codec@,
            options: self.configuration@,
            buffer: self.buffer@,
            compatibility: self.compatibility,
        }
    }
}

impl NetworkVirtualTerminal {
    /// The components are sound and the data buffer is below its limit.
    pub open spec fn wf(&self) -> bool {
        &&& self@.codec.max <= PAYLOAD_LIMIT as nat
        &&& match self@.codec.state {
            DecoderState::SubnegotiateArgument(_) => true,
            DecoderState::SubnegotiateArgumentIAC(_) => true,
            _ => self@.codec.payload.len() == 0,
        }
        &&& self@.options.len() == 256
        &&& self@.buffer.len() < DATA_BUFFER_LIMIT
    }

    /// A fresh terminal: codec at normal data, every option disabled and
    /// disallowed, no pending data, strict compatibility.
    pub fn new() -> (r: NetworkVirtualTerminal)
        ensures
            r.wf(),
            r@.codec.state == DecoderState::NormalData,
            r@.codec.payload == Seq::<u8>::empty(),
            r@.buffer == Seq::<u8>::empty(),
            forall|i: int| 0 <= i < 256 ==> r@.options[i] == spec_default_option_state(),
            r@.compatibility == (Compatibility {
                send_unicode_while_normal: false,
                recv_unicode_while_normal: false,
            }),
    {
        NetworkVirtualTerminal {
            codec: TelnetCodec::default(),
            configuration: TerminalConfiguration::new(),
            buffer: Vec::new(),
            compatibility: Compatibility::default(),
        }
    }

    /// A fresh terminal whose decoder rejects subnegotiation payloads
    /// longer than `max` as too long; everything else as `new`.
    pub fn with_max_payload(max: usize) -> (r: NetworkVirtualTerminal)
        requires
            max <= PAYLOAD_LIMIT,
        ensures
            r.wf(),
            r@.codec.state == DecoderState::NormalData,
            r@.codec.payload == Seq::<u8>::empty(),
            r@.codec.max == max as nat,
            r@.buffer == Seq::<u8>::empty(),
            forall|i: int| 0 <= i < 256 ==> r@.options[i] == spec_default_option_state(),
            r@.compatibility == (Compatibility {
                send_unicode_while_normal: false,
                recv_unicode_while_normal: false,
            }),
    {
        NetworkVirtualTerminal {
            codec: TelnetCodec::with_max_payload(max),
            configuration: TerminalConfiguration::new(),
            buffer: Vec::new(),
            compatibility: Compatibility::default(),
        }
    }

    /// Permit negotiation of the local direction of an option.
    pub fn allow_local(&mut self, option: TelnetOption) -> (r: Result<(), ConfigurationError>)
        requires
            old(self).wf(),
        ensures
            final(self).wf(),
            final(self)@.codec == old(self)@.codec,
            final(self)@.buffer == old(self)@.buffer,
            final(self)@.compatibility == old(self)@.compatibility,
            crate::state::spec_supported_local(option) ==> {
                let code = spec_option_code(option);
                &&& final(self)@.options == old(self)@.options.update(
                    code as int,
                    OptionState { local_allowed: true, ..old(self)@.options[code as int] },
                )
                &&& r is Ok
            },
            !crate::state::spec_supported_local(option) ==> final(self)@.options == old(self)@.options && r
                == Err::<(), ConfigurationError>(ConfigurationError),
    {
        self.configuration.allow_local(option)
    }

    /// Permit negotiation of the remote direction of an option.
    pub fn allow_remote(&mut self, option: TelnetOption) -> (r: Result<(), ConfigurationError>)
        requires
            old(self).wf(),
        ensures
            final(self).wf(),
            final(self)@.codec == old(self)@.codec,
            final(self)@.buffer == old(self)@.buffer,
            final(self)@.compatibility == old(self)@.compatibility,
            crate::state::spec_supported_remote(option) ==> {
                let code = spec_option_code(option);
                &&& final(self)@.options == old(self)@.options.update(
                    code as int,
                    OptionState { remote_allowed: true, ..old(self)@.options[code as int] },
                )
                &&& r is Ok
            },
            !crate::state::spec_supported_remote(option) ==> final(self)@.options == old(self)@.options
                && r == Err::<(), ConfigurationError>(ConfigurationError),
    {
        self.configuration.allow_remote(option)
    }

    /// The local direction of an option is negotiated and in force.
    pub fn option_enabled_local(&self, option: TelnetOption) -> (r: bool)
        requires
            self.wf(),
        ensures
            r == (self@.options[spec_option_code(option) as int].local == NegotiationState::Yes),
    {
        self.configuration.option_enabled_local(option)
    }

    /// The remote direction of an option is negotiated and in force.
    pub fn option_enabled_remote(&self, option: TelnetOption) -> (r: bool)
        requires
            self.wf(),
        ensures
            r == (self@.options[spec_option_code(option) as int].remote == NegotiationState::Yes),
    {
        self.configuration.option_enabled_remote(option)
    }

    /// Decode the next frame out of inbound bytes, as the codec does.
    pub fn decode(&mut self, src: &mut bytes::BytesMut) -> (r: Result<Option<TelnetFrame>, DecodeError>)
        requires
            old(self).wf(),
        ensures
            final(self).wf(),
            final(self)@.options == old(self)@.options,
            final(self)@.buffer == old(self)@.buffer,
            final(self)@.compatibility == old(self)@.compatibility,
            final(self)@.codec.max == old(self)@.codec.max,
            ({
                let run = spec_decode(
                    old(self)@.codec.max,
                    old(self)@.codec.state,
                    old(self)@.codec.payload,
                    byte_content(*old(src)),
                );
                &&& byte_content(*final(src)) == byte_content(*old(src)).skip(run.consumed)
                &&& final(self)@.codec.state == run.state
                &&& final(self)@.codec.payload == run.payload
                &&& match run.out {
                    StepOut::Pending => r matches Ok(o) && o is None,
                    StepOut::Emit(f) => r matches Ok(o) && o matches Some(frame) && frame@ == f,
                    StepOut::Fail(e) => r matches Err(e2) && e2 == e,
                }
            }),
    {
        self.codec.decode(src)
    }

    /// Hand over pending inbound data, if any, as one output.
    pub fn flush_data(&mut self) -> (r: Option<TerminalOutput>)
        requires
            old(self).wf(),
        ensures
            final(self).wf(),
            final(self)@.codec == old(self)@.codec,
            final(self)@.options == old(self)@.options,
            final(self)@.compatibility == old(self)@.compatibility,
            final(self)@.buffer == Seq::<u8>::empty(),
            spec_output_view(r) == spec_flush(old(self)@.buffer),
    {
        if self.buffer.len() > 0 {
            let mut data: Vec<u8> = Vec::new();
            core::mem::swap(&mut data, &mut self.buffer);
            Some(TerminalOutput::BinaryData(data))
        } else {
            None
        }
    }

    /// Classify one inbound frame.  Returns what to surface - flushed data
    /// first, then at most one event - and the negotiation reply, if any,
    /// to encode onto the wire before the next frame is taken.
    pub fn handle_frame(&mut self, frame: TelnetFrame) -> (r: (
        Option<TerminalOutput>,
        Option<TerminalOutput>,
        Option<TelnetFrame>,
    ))
        requires
            old(self).wf(),
        ensures
            final(self).wf(),
            final(self)@.codec == old(self)@.codec,
            final(self)@.compatibility == old(self)@.compatibility,
            ({
                let hr = spec_handle_frame(old(self)@.options, old(self)@.buffer, frame@);
                &&& final(self)@.options == hr.options
                &&& final(self)@.buffer == hr.buffer
                &&& spec_output_view(r.0) == hr.flushed
                &&& spec_output_view(r.1) == hr.event
                &&& spec_frame_view(r.2) == hr.reply
            }),
    {
        match frame {
            TelnetFrame::Data(b) => {
                self.buffer.push(b);
                if self.buffer.len() >= DATA_BUFFER_LIMIT {
                    let mut data: Vec<u8> = Vec::new();
                    core::mem::swap(&mut data, &mut self.buffer);
                    (Some(TerminalOutput::BinaryData(data)), None, None)
                } else {
                    (None, None, None)
                }
            },
            TelnetFrame::NoOperation => (self.flush_data(), Some(TerminalOutput::NoOperation), None),
            TelnetFrame::DataMark => (self.flush_data(), Some(TerminalOutput::DataMark), None),
            TelnetFrame::Break => (self.flush_data(), Some(TerminalOutput::Break), None),
            TelnetFrame::InterruptProcess => (
                self.flush_data(),
                Some(TerminalOutput::InterruptProcess),
                None,
            ),
            TelnetFrame::AbortOutput => (self.flush_data(), Some(TerminalOutput::AbortOutput), None),
            TelnetFrame::AreYouThere => (self.flush_data(), Some(TerminalOutput::AreYouThere), None),
            TelnetFrame::EraseCharacter => (self.flush_data(), Some(TerminalOutput::EraseCharacter), None),
            TelnetFrame::EraseLine => (self.flush_data(), Some(TerminalOutput::EraseLine), None),
            TelnetFrame::GoAhead => (self.flush_data(), Some(TerminalOutput::GoAhead), None),
            TelnetFrame::Do(code) => self.negotiation_frame(code, true, true),
            TelnetFrame::Dont(code) => self.negotiation_frame(code, true, false),
            TelnetFrame::Will(code) => self.negotiation_frame(code, false, true),
            TelnetFrame::Wont(code) => self.negotiation_frame(code, false, false),
            TelnetFrame::Subnegotiate(code, payload) => {
                let flushed = self.flush_data();
                let option = TelnetOption::from(code);
                proof {
                    lemma_option_code_round_trip(code);
                }
                if self.configuration.option_enabled_remote(option) {
                    (flushed, Some(TerminalOutput::Subnegotiation(option, payload)), None)
                } else {
                    (flushed, None, None)
                }
            },
        }
    }

    /// Feed one received negotiation frame to the engine, flushing pending
    /// data first and surfacing a state change when one direction crossed
    /// enabled.
    fn negotiation_frame(&mut self, code: u8, local_track: bool, positive: bool) -> (r: (
        Option<TerminalOutput>,
        Option<TerminalOutput>,
        Option<TelnetFrame>,
    ))
        requires
            old(self).wf(),
        ensures
            final(self).wf(),
            final(self)@.codec == old(self)@.codec,
            final(self)@.compatibility == old(self)@.compatibility,
            ({
                let hr = spec_handle_negotiation(
                    old(self)@.options,
                    old(self)@.buffer,
                    local_track,
                    positive,
                    code,
                );
                &&& final(self)@.options == hr.options
                &&& final(self)@.buffer == hr.buffer
                &&& spec_output_view(r.0) == hr.flushed
                &&& spec_output_view(r.1) == hr.event
                &&& spec_frame_view(r.2) == hr.reply
            }),
    {
        let flushed = self.flush_data();
        let option = TelnetOption::from(code);
        proof {
            lemma_option_code_round_trip(code);
        }
        let enabled_before = if local_track {
            self.configuration.option_enabled_local(option)
        } else {
            self.configuration.option_enabled_remote(option)
        };
        let res = if local_track {
            if positive {
                self.configuration.receive_do(option)
            } else {
                self.configuration.receive_dont(option)
            }
        } else {
            if positive {
                self.configuration.receive_dowill(option)
            } else {
                self.configuration.receive_wont(option)
            }
        };
        let enabled_after = if local_track {
            self.configuration.option_enabled_local(option)
        } else {
            self.configuration.option_enabled_remote(option)
        };
        let endpoint = if local_track {
            TerminalEndpoint::Local
        } else {
            TerminalEndpoint::Remote
        };
        let event = if !enabled_before && enabled_after {
            Some(TerminalOutput::OptionEnabled(endpoint, option))
        } else if enabled_before && !enabled_after {
            Some(TerminalOutput::OptionDisabled(endpoint, option))
        } else {
            None
        };
        let reply = match res {
            Ok(Some(frame)) => Some(frame),
            _ => None,
        };
        (flushed, event, reply)
    }

    /// Serialize one application input: data and commands become frames on
    /// the wire, enable and disable requests drive the engine, and a
    /// subnegotiation goes out only while its option's local direction is
    /// enabled.
    #[verifier::loop_isolation(false)]
    pub fn send_input(&mut self, input: TerminalInput, dst: &mut bytes::BytesMut) -> (r: Result<
        (),
        TerminalError,
    >)
        requires
            old(self).wf(),
            byte_content(*old(dst)).len() + 5 + 2 * spec_input_payload_len(input) <= usize::MAX / 2,
        ensures
            final(self).wf(),
            final(self)@.codec == old(self)@.codec,
            final(self)@.buffer == old(self)@.buffer,
            final(self)@.compatibility == old(self)@.compatibility,
            match input {
                TerminalInput::NoOperation => final(self)@.options == old(self)@.options && byte_content(
                    *final(dst),
                ) == byte_content(*old(dst)) + spec_encode(FrameModel::NoOperation) && r is Ok,
                TerminalInput::DataMark => final(self)@.options == old(self)@.options && byte_content(
                    *final(dst),
                ) == byte_content(*old(dst)) + spec_encode(FrameModel::DataMark) && r is Ok,
                TerminalInput::Break => final(self)@.options == old(self)@.options && byte_content(
                    *final(dst),
                ) == byte_content(*old(dst)) + spec_encode(FrameModel::Break) && r is Ok,
                TerminalInput::InterruptProcess => final(self)@.options == old(self)@.options
                    && byte_content(*final(dst)) == byte_content(*old(dst)) + spec_encode(
                    FrameModel::InterruptProcess,
                ) && r is Ok,
                TerminalInput::AbortOutput => final(self)@.options == old(self)@.options && byte_content(
                    *final(dst),
                ) == byte_content(*old(dst)) + spec_encode(FrameModel::AbortOutput) && r is Ok,
                TerminalInput::AreYouThere => final(self)@.options == old(self)@.options && byte_content(
                    *final(dst),
                ) == byte_content(*old(dst)) + spec_encode(FrameModel::AreYouThere) && r is Ok,
                TerminalInput::EraseCharacter => final(self)@.options == old(self)@.options
                    && byte_content(*final(dst)) == byte_content(*old(dst)) + spec_encode(
                    FrameModel::EraseCharacter,
                ) && r is Ok,
                TerminalInput::EraseLine => final(self)@.options == old(self)@.options && byte_content(
                    *final(dst),
                ) == byte_content(*old(dst)) + spec_encode(FrameModel::EraseLine) && r is Ok,
                TerminalInput::GoAhead => final(self)@.options == old(self)@.options && byte_content(
                    *final(dst),
                ) == byte_content(*old(dst)) + spec_encode(FrameModel::GoAhead) && r is Ok,
                TerminalInput::BinaryData(data) => final(self)@.options == old(self)@.options
                    && byte_content(*final(dst)) == byte_content(*old(dst)) + spec_escape(data@) && r
                    is Ok,
                TerminalInput::EnableLocalOption(option) => spec_intent_result(
                    old(self)@.options,
                    final(self)@.options,
                    option,
                    true,
                    true,
                    byte_content(*old(dst)),
                    byte_content(*final(dst)),
                    r,
                ),
                TerminalInput::DisableLocalOption(option) => spec_intent_result(
                    old(self)@.options,
                    final(self)@.options,
                    option,
                    true,
                    false,
                    byte_content(*old(dst)),
                    byte_content(*final(dst)),
                    r,
                ),
                TerminalInput::EnableRemoteOption(option) => spec_intent_result(
                    old(self)@.options,
                    final(self)@.options,
                    option,
                    false,
                    true,
                    byte_content(*old(dst)),
                    byte_content(*final(dst)),
                    r,
                ),
                TerminalInput::DisableRemoteOption(option) => spec_intent_result(
                    old(self)@.options,
                    final(self)@.options,
                    option,
                    false,
                    false,
                    byte_content(*old(dst)),
                    byte_content(*final(dst)),
                    r,
                ),
                TerminalInput::Subnegotiation(option, payload) => {
                    let code = spec_option_code(option);
                    if old(self)@.options[code as int].local == NegotiationState::Yes {
                        final(self)@.options == old(self)@.options && byte_content(*final(dst))
                            == byte_content(*old(dst)) + spec_encode(
                            FrameModel::Subnegotiate(code, payload@),
                        ) && r is Ok
                    } else {
                        final(self)@.options == old(self)@.options && byte_content(*final(dst))
                            == byte_content(*old(dst)) && r == Err::<(), TerminalError>(
                            TerminalError::OptionNotEnabled(option),
                        )
                    }
                },
            },
    {
        match input {
            TerminalInput::NoOperation => {
                let _ok = encode_frame(TelnetFrame::NoOperation, dst);
                Ok(())
            },
            TerminalInput::DataMark => {
                let _ok = encode_frame(TelnetFrame::DataMark, dst);
                Ok(())
            },
            TerminalInput::Break => {
                let _ok = encode_frame(TelnetFrame::Break, dst);
                Ok(())
            },
            TerminalInput::InterruptProcess => {
                let _ok = encode_frame(TelnetFrame::InterruptProcess, dst);
                Ok(())
            },
            TerminalInput::AbortOutput => {
                let _ok = encode_frame(TelnetFrame::AbortOutput, dst);
                Ok(())
            },
            TerminalInput::AreYouThere => {
                let _ok = encode_frame(TelnetFrame::AreYouThere, dst);
                Ok(())
            },
            TerminalInput::EraseCharacter => {
                let _ok = encode_frame(TelnetFrame::EraseCharacter, dst);
                Ok(())
            },
            TerminalInput::EraseLine => {
                let _ok = encode_frame(TelnetFrame::EraseLine, dst);
                Ok(())
            },
            TerminalInput::GoAhead => {
                let _ok = encode_frame(TelnetFrame::GoAhead, dst);
                Ok(())
            },
            TerminalInput::BinaryData(data) => {
                let ghost dst0 = byte_content(*old(dst));
                let n = data.len();
                let mut i: usize = 0;
                while i < n
                    invariant
                        i <= n,
                        byte_content(*dst) == dst0 + spec_escape(data@.take(i as int)),
                    decreases n - i,
                {
                    proof {
                        lemma_escape_len(data@.take(i as int));
                        lemma_escape_push(data@.take(i as int), data@[i as int]);
                        assert(data@.take(i as int).push(data@[i as int]) =~= data@.take(i + 1 as int));
                    }
                    let _ok = encode_frame(TelnetFrame::Data(data[i]), dst);
                    proof {
                        assert(byte_content(*dst) =~= dst0 + spec_escape(data@.take(i + 1 as int)));
                    }
                    i = i + 1;
                }
                proof {
                    assert(data@.take(n as int) =~= data@);
                }
                Ok(())
            },
            TerminalInput::EnableLocalOption(option) => self.send_intent(option, true, true, dst),
            TerminalInput::DisableLocalOption(option) => self.send_intent(option, true, false, dst),
            TerminalInput::EnableRemoteOption(option) => self.send_intent(option, false, true, dst),
            TerminalInput::DisableRemoteOption(option) => self.send_intent(option, false, false, dst),
            TerminalInput::Subnegotiation(option, payload) => {
                if self.configuration.option_enabled_local(option) {
                    let code = u8::from(option);
                    proof {
                        lemma_escape_len(payload@);
                    }
                    let _ok = encode_frame(TelnetFrame::Subnegotiate(code, payload), dst);
                    Ok(())
                } else {
                    Err(TerminalError::OptionNotEnabled(option))
                }
            },
        }
    }

    /// Feed one local intent to the engine and put its frame, if any, on
    /// the wire.  A contradictory request is queued by the engine and
    /// reported as an error.
    fn send_intent(
        &mut self,
        option: TelnetOption,
        local_track: bool,
        enable: bool,
        dst: &mut bytes::BytesMut,
    ) -> (r: Result<(), TerminalError>)
        requires
            old(self).wf(),
            byte_content(*old(dst)).len() + 5 <= usize::MAX / 2,
        ensures
            final(self).wf(),
            final(self)@.codec == old(self)@.codec,
            final(self)@.buffer == old(self)@.buffer,
            final(self)@.compatibility == old(self)@.compatibility,
            spec_intent_result(
                old(self)@.options,
                final(self)@.options,
                option,
                local_track,
                enable,
                byte_content(*old(dst)),
                byte_content(*final(dst)),
                r,
            ),
    {
        let res = if local_track {
            if enable {
                self.configuration.enable_local(option)
            } else {
                self.configuration.disable_local(option)
            }
        } else {
            if enable {
                self.configuration.enable_remote(option)
            } else {
                self.configuration.disable_remote(option)
            }
        };
        match res {
            Ok(Some(frame)) => {
                let _ok = encode_frame(frame, dst);
                Ok(())
            },
            Ok(None) => Ok(()),
            Err(_) => Err(TerminalError::ContradictoryRequest(option)),
        }
    }
}

/// What one local intent does: the engine's table update, the emitted
/// frame appended to the wire bytes, and the contradiction error where the
/// engine recorded one.
pub open spec fn spec_intent_result(
    options: Seq<OptionState>,
    options2: Seq<OptionState>,
    option: TelnetOption,
    local_track: bool,
    enable: bool,
    bytes0: Seq<u8>,
    bytes2: Seq<u8>,
    r: Result<(), TerminalError>,
) -> bool {
    let (updated, res) = spec_intent_event(options, option, local_track, enable);
    &&& options2 == updated
    &&& match res {
        Ok(Some(frame)) => bytes2 == bytes0 + spec_encode(frame@) && r is Ok,
        Ok(None) => bytes2 == bytes0 && r is Ok,
        Err(_) => bytes2 == bytes0 && r == Err::<(), TerminalError>(
            TerminalError::ContradictoryRequest(option),
        ),
    }
}

} // verus!
