//! A verified Telnet protocol engine: a streaming codec between bytes and
//! frames, a Q-method option-negotiation engine over all 256 option codes,
//! and a Network Virtual Terminal facade that composes them.  Every
//! function carries a contract; transports stay outside and exchange plain
//! byte buffers with the library.

pub mod action;
pub mod args;
pub mod bytebuf;
pub mod codec;
pub mod codec_laws;
pub mod consts;
pub mod error;
pub mod frame;
pub mod msdp;
pub mod mssp;
pub mod naocrd;
pub mod negotiation;
pub mod option;
pub mod option_codes;
pub mod options;
pub mod output;
pub mod state;
pub mod status;
pub mod terminal;

pub use crate::action::TelnetAction;
pub use crate::args::Argument;
pub use crate::args::TelnetArgument;
pub use crate::codec::TelnetCodec;
pub use crate::error::DecodeError;
pub use crate::error::EncodeError;
pub use crate::frame::FrameModel;
pub use crate::frame::TelnetFrame;
pub use crate::msdp::MudServerData;
pub use crate::msdp::MudServerDataValue;
pub use crate::mssp::MudServerStatus;
pub use crate::naocrd::NAOCRD;
pub use crate::negotiation::NegotiationState;
pub use crate::option::TelnetOption;
pub use crate::options::TelnetNegotiation;
pub use crate::options::TelnetSubnegotiation;
pub use crate::options::TerminalAction;
pub use crate::options::TerminalEndpoint;
pub use crate::options::TerminalOption;
pub use crate::options::TerminalOptionState;
pub use crate::output::TerminalInput;
pub use crate::output::TerminalOutput;
pub use crate::state::ConfigurationError;
pub use crate::state::NegotiationError;
pub use crate::state::OptionState;
pub use crate::state::TerminalConfiguration;
pub use crate::status::TelnetOptionStatus;
pub use crate::terminal::Compatibility;
pub use crate::terminal::NetworkVirtualTerminal;
pub use crate::terminal::TerminalError;
