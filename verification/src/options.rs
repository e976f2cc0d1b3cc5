use vstd::prelude::*;

use crate::action::spec_action_code;
use crate::action::TelnetAction;
use crate::bytebuf::buf_new;
use crate::bytebuf::buf_put_u8;
use crate::bytebuf::buf_to_vec;
use crate::bytebuf::byte_content;
use crate::codec::encode_frame;
use crate::codec::lemma_escape_len;
use crate::codec::spec_encode;
use crate::consts::IAC;
use crate::error::EncodeError;
use crate::frame::FrameModel;
use crate::frame::TelnetFrame;
use crate::msdp::lemma_table_encoding_len;
use crate::msdp::spec_table_encoding;
use crate::msdp::spec_table_len;
use crate::msdp::MudServerData;
use crate::mssp::spec_mssp_encoding;
use crate::mssp::MudServerStatus;
use crate::naocrd::spec_naocrd_encoding;
use crate::naocrd::NAOCRD;
use crate::option::spec_option_code;
use crate::option::spec_option_of;
use crate::option::TelnetOption;
use crate::status::lemma_status_entries_encoding_len;
use crate::status::spec_status_encoding;
use crate::status::TelnetOptionStatus;

verus! {

/// Which side of the terminal a direction belongs to.
#[derive(Clone, Copy, Debug, Eq, Hash, PartialEq, Structural)]
pub enum TerminalEndpoint {
    /// Local terminal side
    Local,
    /// Remote terminal side
    Remote,
}

/// Which way data flows for a negotiated capability.
#[derive(Clone, Copy, Debug, Eq, PartialEq, Structural)]
pub enum TerminalAction {
    /// Sending data
    Sending,
    /// Receiving data
    Receiving,
}

/// The policy classification of one direction of an option.
#[derive(Clone, Copy, Debug, Eq, PartialEq, Structural)]
pub enum TerminalOptionState {
    /// Option is unsupported by this library.
    Unsupported,
    /// Option is supported by the library but disallowed by the user.
    Supported,
    /// Option is allowed by the user but not yet negotiated.
    Allowed,
    /// Option is negotiated.
    Enabled,
}

/// A direction of a negotiated capability: an option together with the side
/// that performs it.
#[derive(Clone, Copy, Debug, Eq, Hash, PartialEq, Structural)]
pub enum TerminalOption {
    /// Send binary: we transmit 8-bit data.
    SendBinary,
    /// Receive binary: the peer transmits 8-bit data.
    ReceiveBinary,
    /// Any other option, with the side that performs it.
    Unknown(TerminalEndpoint, TelnetOption),
}

impl TerminalOption {
    /// The side that performs the capability.
    pub fn endpoint(&self) -> (r: TerminalEndpoint)
        ensures
            r == match *self {
                TerminalOption::SendBinary => TerminalEndpoint::Local,
                TerminalOption::ReceiveBinary => TerminalEndpoint::Remote,
                TerminalOption::Unknown(endpoint, _) => endpoint,
            },
    {
        match *self {
            TerminalOption::SendBinary => TerminalEndpoint::Local,
            TerminalOption::ReceiveBinary => TerminalEndpoint::Remote,
            TerminalOption::Unknown(endpoint, _) => endpoint,
        }
    }

    /// The wire option behind the capability.
    pub fn option(&self) -> (r: TelnetOption)
        ensures
            r == match *self {
                TerminalOption::SendBinary => TelnetOption::TransmitBinary,
                TerminalOption::ReceiveBinary => TelnetOption::TransmitBinary,
                TerminalOption::Unknown(_, option) => option,
            },
    {
        match *self {
            TerminalOption::SendBinary => TelnetOption::TransmitBinary,
            TerminalOption::ReceiveBinary => TelnetOption::TransmitBinary,
            TerminalOption::Unknown(_, option) => option,
        }
    }
}

/// One negotiation command as a value: an action applied to an option.
#[derive(Clone, Copy, Debug, PartialEq, Eq, Structural)]
pub struct TelnetNegotiation(pub TelnetAction, pub TelnetOption);

impl TelnetNegotiation {
    /// Create a new `TelnetNegotiation`.
    pub fn new(action: TelnetAction, option: TelnetOption) -> (r: TelnetNegotiation)
        ensures
            r == TelnetNegotiation(action, option),
    {
        TelnetNegotiation(action, option)
    }

    /// The `TelnetAction` of this negotiation.
    pub fn action(&self) -> (r: TelnetAction)
        ensures
            r == self.0,
    {
        self.0
    }

    /// The `TelnetOption` of this negotiation.
    pub fn option(&self) -> (r: TelnetOption)
        ensures
            r == self.1,
    {
        self.1
    }

    /// The encoded length of a negotiation (hint: always 3).
    pub fn len(&self) -> (r: usize)
        ensures
            r == 3,
    {
        3
    }

    /// Append the three wire bytes `IAC action option` to `dst`.
    pub fn encode(&self, dst: &mut bytes::BytesMut)
        requires
            byte_content(*old(dst)).len() + 3 <= usize::MAX / 2,
        ensures
            byte_content(*final(dst)) == byte_content(*old(dst)) + seq![
                IAC,
                spec_action_code(self.0),
                spec_option_code(self.1),
            ],
    {
        let ghost dst0 = byte_content(*old(dst));
        buf_put_u8(dst, IAC);
        buf_put_u8(dst, u8::from(self.action()));
        buf_put_u8(dst, u8::from(self.option()));
        proof {
            assert(byte_content(*dst) =~= dst0 + seq![IAC, spec_action_code(self.0), spec_option_code(self.1)]);
        }
    }
}

/// One subnegotiation as a value: the argument of a known option, or raw
/// payload bytes for any other.
#[derive(Debug)]
pub enum TelnetSubnegotiation {
    /// Status SEND request
    StatusSend,
    /// Status IS reply
    StatusIs(TelnetOptionStatus),
    /// Carriage-return disposition, data sender side
    NAOCRDDataSender(NAOCRD),
    /// Carriage-return disposition, data receiver side
    NAOCRDDataReceiver(NAOCRD),
    /// Mud Server Data
    MudServerData(MudServerData),
    /// Mud Server Status
    MudServerStatus(MudServerStatus),
    /// Unknown subnegotiation argument: option code and raw payload
    Unknown(u8, Vec<u8>),
}

/// The option a subnegotiation speaks about.
pub open spec fn spec_subnegotiation_option(s: TelnetSubnegotiation) -> TelnetOption {
    match s {
        TelnetSubnegotiation::StatusSend => TelnetOption::Status,
        TelnetSubnegotiation::StatusIs(_) => TelnetOption::Status,
        TelnetSubnegotiation::NAOCRDDataSender(_) => TelnetOption::NAOCRD,
        TelnetSubnegotiation::NAOCRDDataReceiver(_) => TelnetOption::NAOCRD,
        TelnetSubnegotiation::MudServerData(_) => TelnetOption::MSDP,
        TelnetSubnegotiation::MudServerStatus(_) => TelnetOption::MSSP,
        TelnetSubnegotiation::Unknown(code, _) => spec_option_of(code),
    }
}

/// The payload bytes of a subnegotiation, before escape-doubling.
pub open spec fn spec_subnegotiation_payload(s: TelnetSubnegotiation) -> Seq<u8> {
    match s {
        TelnetSubnegotiation::StatusSend => seq![crate::status::SEND],
        TelnetSubnegotiation::StatusIs(report) => spec_status_encoding(report.0@),
        TelnetSubnegotiation::NAOCRDDataSender(disposition) => spec_naocrd_encoding(disposition),
        TelnetSubnegotiation::NAOCRDDataReceiver(disposition) => spec_naocrd_encoding(disposition),
        TelnetSubnegotiation::MudServerData(data) => spec_table_encoding(data.0@, 0),
        TelnetSubnegotiation::MudServerStatus(report) => spec_mssp_encoding(report@, 0),
        TelnetSubnegotiation::Unknown(_, payload) => payload@,
    }
}

impl TelnetSubnegotiation {
    /// The option this subnegotiation speaks about.
    pub fn option(&self) -> (r: TelnetOption)
        ensures
            r == spec_subnegotiation_option(*self),
    {
        match self {
            TelnetSubnegotiation::StatusSend => TelnetOption::Status,
            TelnetSubnegotiation::StatusIs(_) => TelnetOption::Status,
            TelnetSubnegotiation::NAOCRDDataSender(_) => TelnetOption::NAOCRD,
            TelnetSubnegotiation::NAOCRDDataReceiver(_) => TelnetOption::NAOCRD,
            TelnetSubnegotiation::MudServerData(_) => TelnetOption::MSDP,
            TelnetSubnegotiation::MudServerStatus(_) => TelnetOption::MSSP,
            TelnetSubnegotiation::Unknown(code, _) => TelnetOption::from(*code),
        }
    }

    /// The encoded length of the subnegotiation before escape-doubling:
    /// the five envelope bytes `IAC SB option ... IAC SE` plus the payload.
    pub fn len(&self) -> (r: usize)
        requires
            5 + spec_subnegotiation_payload(*self).len() <= usize::MAX,
        ensures
            r == 5 + spec_subnegotiation_payload(*self).len(),
    {
        let payload_len: usize = match self {
            TelnetSubnegotiation::StatusSend => 1,
            TelnetSubnegotiation::StatusIs(report) => {
                proof {
                    lemma_status_entries_encoding_len(report.0@, 0);
                }
                report.len()
            },
            TelnetSubnegotiation::NAOCRDDataSender(disposition) => disposition.len(),
            TelnetSubnegotiation::NAOCRDDataReceiver(disposition) => disposition.len(),
            TelnetSubnegotiation::MudServerData(data) => {
                proof {
                    lemma_table_encoding_len(data.0@, 0);
                }
                data.len()
            },
            TelnetSubnegotiation::MudServerStatus(report) => report.len(),
            TelnetSubnegotiation::Unknown(_, payload) => payload.len(),
        };
        5 + payload_len
    }

    /// The payload bytes of the subnegotiation, before escape-doubling.
    #[verifier::loop_isolation(false)]
    pub fn payload(&self) -> (r: Vec<u8>)
        requires
            spec_subnegotiation_payload(*self).len() <= usize::MAX / 2,
        ensures
            r@ == spec_subnegotiation_payload(*self),
    {
        let mut buffer = buf_new();
        match self {
            TelnetSubnegotiation::StatusSend => {
                buf_put_u8(&mut buffer, crate::status::SEND);
                proof {
                    assert(byte_content(buffer) =~= spec_subnegotiation_payload(*self));
                }
            },
            TelnetSubnegotiation::StatusIs(report) => {
                proof {
                    lemma_status_entries_encoding_len(report.0@, 0);
                }
                report.encode(&mut buffer);
                proof {
                    assert(byte_content(buffer) =~= spec_subnegotiation_payload(*self));
                }
            },
            TelnetSubnegotiation::NAOCRDDataSender(disposition) => {
                disposition.encode(&mut buffer);
                proof {
                    assert(byte_content(buffer) =~= spec_subnegotiation_payload(*self));
                }
            },
            TelnetSubnegotiation::NAOCRDDataReceiver(disposition) => {
                disposition.encode(&mut buffer);
                proof {
                    assert(byte_content(buffer) =~= spec_subnegotiation_payload(*self));
                }
            },
            TelnetSubnegotiation::MudServerData(data) => {
                data.encode(&mut buffer);
                proof {
                    assert(byte_content(buffer) =~= spec_subnegotiation_payload(*self));
                }
            },
            TelnetSubnegotiation::MudServerStatus(report) => {
                report.encode(&mut buffer);
                proof {
                    assert(byte_content(buffer) =~= spec_subnegotiation_payload(*self));
                }
            },
            TelnetSubnegotiation::Unknown(_, payload) => {
                let n = payload.len();
                let mut i: usize = 0;
                while i < n
                    invariant
                        i <= n,
                        byte_content(buffer) == payload@.take(i as int),
                    decreases n - i,
                {
                    buf_put_u8(&mut buffer, payload[i]);
                    proof {
                        assert(byte_content(buffer) =~= payload@.take(i + 1 as int));
                    }
                    i = i + 1;
                }
                proof {
                    assert(payload@.take(n as int) =~= payload@);
                }
            },
        }
        buf_to_vec(&buffer)
    }

    /// The subnegotiation as a frame, ready for the codec.
    pub fn to_frame(&self) -> (r: TelnetFrame)
        requires
            spec_subnegotiation_payload(*self).len() <= usize::MAX / 2,
        ensures
            r@ == FrameModel::Subnegotiate(
                spec_option_code(spec_subnegotiation_option(*self)),
                spec_subnegotiation_payload(*self),
            ),
    {
        TelnetFrame::Subnegotiate(u8::from(self.option()), self.payload())
    }

    /// Append the subnegotiation's wire bytes to `dst`: the envelope with
    /// the payload escape-doubled.
    pub fn encode(&self, dst: &mut bytes::BytesMut) -> (r: Result<(), EncodeError>)
        requires
            byte_content(*old(dst)).len() + 5 + 2 * spec_subnegotiation_payload(*self).len() <= usize::MAX
                / 2,
        ensures
            byte_content(*final(dst)) == byte_content(*old(dst)) + spec_encode(
                FrameModel::Subnegotiate(
                    spec_option_code(spec_subnegotiation_option(*self)),
                    spec_subnegotiation_payload(*self),
                ),
            ),
            r is Ok,
    {
        proof {
            lemma_escape_len(spec_subnegotiation_payload(*self));
        }
        let frame = self.to_frame();
        encode_frame(frame, dst)
    }
}

} // verus!
