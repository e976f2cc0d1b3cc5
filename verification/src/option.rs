use vstd::prelude::*;

use crate::option_codes;

verus! {

/// A Telnet option, one name for each assigned 8-bit option code; every
/// unassigned code is representable as `Unknown(code)`.
#[derive(Clone, Copy, Debug, Eq, Hash, PartialEq, Structural)]
pub enum TelnetOption {
    /// Telnet Binary Transmission: enable the 8 bit data path
    TransmitBinary,
    /// Telnet Echo Option
    Echo,
    /// Telnet Reconnection Option
    Reconnection,
    /// Suppress Go Ahead
    SuppressGoAhead,
    /// Approximate Message Size Negotiation
    ApproxMessageSizeNegotiation,
    /// Telnet Status Option
    Status,
    /// Telnet Timing Mark Option
    TimingMark,
    /// Remote Controlled Transmission and Echo
    RCTE,
    /// Output Line Width
    OutLineWidth,
    /// Output Page Size
    OutPageSize,
    /// Output Carriage-Return Disposition
    NAOCRD,
    /// Output Horizontal Tab Stops
    NAOHTS,
    /// Output Horizontal Tab Disposition
    NAOHTD,
    /// Output Formfeed Disposition
    NAOFFD,
    /// Output Vertical Tabstops
    NAOVTS,
    /// Output Vertical Tab Disposition
    NAOVTD,
    /// Output Linefeed Disposition
    NAOLFD,
    /// Extended ASCII
    XASCII,
    /// Logout Option
    Logout,
    /// Byte Macro
    ByteMacro,
    /// Data Entry Terminal
    DET,
    /// SUPDUP
    SUPDUP,
    /// SUPDUP Output
    SUPDUPOutput,
    /// Send Location
    SNDLOC,
    /// Terminal Type
    TTYPE,
    /// End of Record
    EOR,
    /// TACACS User Identification
    TUID,
    /// Output Marking
    OUTMRK,
    /// Terminal Location Number
    TTYLOC,
    /// Telnet 3270 Regime
    OPT3270Regime,
    /// X.3 PAD
    X3PAD,
    /// Negotiate About Window Size
    NAWS,
    /// Terminal Speed
    TSPEED,
    /// Remote Flow Control
    LFLOW,
    /// Linemode
    Linemode,
    /// X Display Location
    XDISPLOC,
    /// Environment Option
    Environment,
    /// Authentication Option
    Authentication,
    /// Encryption Option
    Encryption,
    /// New Environment Option
    NewEnvironment,
    /// TN3270E
    TN3270E,
    /// XAUTH
    XAUTH,
    /// Charset
    Charset,
    /// Telnet Remote Serial Port
    TRSP,
    /// Com Port Control Option
    CPCO,
    /// Telnet Suppress Local Echo
    TSLE,
    /// Telnet Start TLS
    StartTLS,
    /// Kermit
    Kermit,
    /// SEND-URL
    SendUrl,
    /// FORWARD_X
    ForwardX,
    /// Mud Server Data Protocol
    MSDP,
    /// Mud Server Status Protocol
    MSSP,
    /// Mud Client Compression Protocol version 1
    Compress1,
    /// Mud Client Compression Protocol version 2
    Compress2,
    /// Zenith Mud Protocol
    ZMP,
    /// Telnet Option Pragma Logon
    PragmaLogon,
    /// Telnet Option SSPI Logon
    SSPILogon,
    /// Telnet Option Pragma Heartbeat
    PragmaHeartbeat,
    /// Extended-Options-List
    EXOPL,
    /// Unknown
    Unknown(u8),
}

/// The 8-bit wire code of an option.
pub open spec fn spec_option_code(option: TelnetOption) -> u8 {
    match option {
        TelnetOption::TransmitBinary => option_codes::BINARY,
        TelnetOption::Echo => option_codes::ECHO,
        TelnetOption::Reconnection => option_codes::RCP,
        TelnetOption::SuppressGoAhead => option_codes::SGA,
        TelnetOption::ApproxMessageSizeNegotiation => option_codes::NAMS,
        TelnetOption::Status => option_codes::STATUS,
        TelnetOption::TimingMark => option_codes::TM,
        TelnetOption::RCTE => option_codes::RCTE,
        TelnetOption::OutLineWidth => option_codes::NAOL,
        TelnetOption::OutPageSize => option_codes::NAOP,
        TelnetOption::NAOCRD => option_codes::NAOCRD,
        TelnetOption::NAOHTS => option_codes::NAOHTS,
        TelnetOption::NAOHTD => option_codes::NAOHTD,
        TelnetOption::NAOFFD => option_codes::NAOFFD,
        TelnetOption::NAOVTS => option_codes::NAOVTS,
        TelnetOption::NAOVTD => option_codes::NAOVTD,
        TelnetOption::NAOLFD => option_codes::NAOLFD,
        TelnetOption::XASCII => option_codes::XASCII,
        TelnetOption::Logout => option_codes::LOGOUT,
        TelnetOption::ByteMacro => option_codes::BM,
        TelnetOption::DET => option_codes::DET,
        TelnetOption::SUPDUP => option_codes::SUPDUP,
        TelnetOption::SUPDUPOutput => option_codes::SUPDUP_OUTPUT,
        TelnetOption::SNDLOC => option_codes::SNDLOC,
        TelnetOption::TTYPE => option_codes::TTYPE,
        TelnetOption::EOR => option_codes::EOR,
        TelnetOption::TUID => option_codes::TUID,
        TelnetOption::OUTMRK => option_codes::OUTMRK,
        TelnetOption::TTYLOC => option_codes::TTYLOC,
        TelnetOption::OPT3270Regime => option_codes::OPT3270REGIME,
        TelnetOption::X3PAD => option_codes::X3PAD,
        TelnetOption::NAWS => option_codes::NAWS,
        TelnetOption::TSPEED => option_codes::TSPEED,
        TelnetOption::LFLOW => option_codes::LFLOW,
        TelnetOption::Linemode => option_codes::LINEMODE,
        TelnetOption::XDISPLOC => option_codes::XDISPLOC,
        TelnetOption::Environment => option_codes::OLD_ENVIRONMENT,
        TelnetOption::Authentication => option_codes::AUTHENTICATION,
        TelnetOption::Encryption => option_codes::ENCRYPTION,
        TelnetOption::NewEnvironment => option_codes::NEW_ENVIRONMENT,
        TelnetOption::TN3270E => option_codes::TN3270E,
        TelnetOption::XAUTH => option_codes::XAUTH,
        TelnetOption::Charset => option_codes::CHARSET,
        TelnetOption::TRSP => option_codes::TRSP,
        TelnetOption::CPCO => option_codes::CPCO,
        TelnetOption::TSLE => option_codes::TSLE,
        TelnetOption::StartTLS => option_codes::START_TLS,
        TelnetOption::Kermit => option_codes::KERMIT,
        TelnetOption::SendUrl => option_codes::SENDURL,
        TelnetOption::ForwardX => option_codes::FORWARDX,
        TelnetOption::MSDP => option_codes::MSDP,
        TelnetOption::MSSP => option_codes::MSSP,
        TelnetOption::Compress1 => option_codes::COMPRESS1,
        TelnetOption::Compress2 => option_codes::COMPRESS2,
        TelnetOption::ZMP => option_codes::ZMP,
        TelnetOption::PragmaLogon => option_codes::PRAGMA_LOGIN,
        TelnetOption::SSPILogon => option_codes::SSPI_LOGIN,
        TelnetOption::PragmaHeartbeat => option_codes::PRAGMA_HEARTBEAT,
        TelnetOption::EXOPL => option_codes::EXOPL,
        TelnetOption::Unknown(byte) => byte,
    }
}

/// The option a wire code names; a code without an assigned name maps to
/// `Unknown` of itself.
pub open spec fn spec_option_of(byte: u8) -> TelnetOption {
    if byte == option_codes::BINARY {
        TelnetOption::TransmitBinary
    } else if byte == option_codes::ECHO {
        TelnetOption::Echo
    } else if byte == option_codes::RCP {
        TelnetOption::Reconnection
    } else if byte == option_codes::SGA {
        TelnetOption::SuppressGoAhead
    } else if byte == option_codes::NAMS {
        TelnetOption::ApproxMessageSizeNegotiation
    } else if byte == option_codes::STATUS {
        TelnetOption::Status
    } else if byte == option_codes::TM {
        TelnetOption::TimingMark
    } else if byte == option_codes::RCTE {
        TelnetOption::RCTE
    } else if byte == option_codes::NAOL {
        TelnetOption::OutLineWidth
    } else if byte == option_codes::NAOP {
        TelnetOption::OutPageSize
    } else if byte == option_codes::NAOCRD {
        TelnetOption::NAOCRD
    } else if byte == option_codes::NAOHTS {
        TelnetOption::NAOHTS
    } else if byte == option_codes::NAOHTD {
        TelnetOption::NAOHTD
    } else if byte == option_codes::NAOFFD {
        TelnetOption::NAOFFD
    } else if byte == option_codes::NAOVTS {
        TelnetOption::NAOVTS
    } else if byte == option_codes::NAOVTD {
        TelnetOption::NAOVTD
    } else if byte == option_codes::NAOLFD {
        TelnetOption::NAOLFD
    } else if byte == option_codes::XASCII {
        TelnetOption::XASCII
    } else if byte == option_codes::LOGOUT {
        TelnetOption::Logout
    } else if byte == option_codes::BM {
        TelnetOption::ByteMacro
    } else if byte == option_codes::DET {
        TelnetOption::DET
    } else if byte == option_codes::SUPDUP {
        TelnetOption::SUPDUP
    } else if byte == option_codes::SUPDUP_OUTPUT {
        TelnetOption::SUPDUPOutput
    } else if byte == option_codes::SNDLOC {
        TelnetOption::SNDLOC
    } else if byte == option_codes::TTYPE {
        TelnetOption::TTYPE
    } else if byte == option_codes::EOR {
        TelnetOption::EOR
    } else if byte == option_codes::TUID {
        TelnetOption::TUID
    } else if byte == option_codes::OUTMRK {
        TelnetOption::OUTMRK
    } else if byte == option_codes::TTYLOC {
        TelnetOption::TTYLOC
    } else if byte == option_codes::OPT3270REGIME {
        TelnetOption::OPT3270Regime
    } else if byte == option_codes::X3PAD {
        TelnetOption::X3PAD
    } else if byte == option_codes::NAWS {
        TelnetOption::NAWS
    } else if byte == option_codes::TSPEED {
        TelnetOption::TSPEED
    } else if byte == option_codes::LFLOW {
        TelnetOption::LFLOW
    } else if byte == option_codes::LINEMODE {
        TelnetOption::Linemode
    } else if byte == option_codes::XDISPLOC {
        TelnetOption::XDISPLOC
    } else if byte == option_codes::OLD_ENVIRONMENT {
        TelnetOption::Environment
    } else if byte == option_codes::AUTHENTICATION {
        TelnetOption::Authentication
    } else if byte == option_codes::ENCRYPTION {
        TelnetOption::Encryption
    } else if byte == option_codes::NEW_ENVIRONMENT {
        TelnetOption::NewEnvironment
    } else if byte == option_codes::TN3270E {
        TelnetOption::TN3270E
    } else if byte == option_codes::XAUTH {
        TelnetOption::XAUTH
    } else if byte == option_codes::CHARSET {
        TelnetOption::Charset
    } else if byte == option_codes::TRSP {
        TelnetOption::TRSP
    } else if byte == option_codes::CPCO {
        TelnetOption::CPCO
    } else if byte == option_codes::TSLE {
        TelnetOption::TSLE
    } else if byte == option_codes::START_TLS {
        TelnetOption::StartTLS
    } else if byte == option_codes::KERMIT {
        TelnetOption::Kermit
    } else if byte == option_codes::SENDURL {
        TelnetOption::SendUrl
    } else if byte == option_codes::FORWARDX {
        TelnetOption::ForwardX
    } else if byte == option_codes::MSDP {
        TelnetOption::MSDP
    } else if byte == option_codes::MSSP {
        TelnetOption::MSSP
    } else if byte == option_codes::COMPRESS1 {
        TelnetOption::Compress1
    } else if byte == option_codes::COMPRESS2 {
        TelnetOption::Compress2
    } else if byte == option_codes::ZMP {
        TelnetOption::ZMP
    } else if byte == option_codes::PRAGMA_LOGIN {
        TelnetOption::PragmaLogon
    } else if byte == option_codes::SSPI_LOGIN {
        TelnetOption::SSPILogon
    } else if byte == option_codes::PRAGMA_HEARTBEAT {
        TelnetOption::PragmaHeartbeat
    } else if byte == option_codes::EXOPL {
        TelnetOption::EXOPL
    } else {
        TelnetOption::Unknown(byte)
    }
}

impl TelnetOption {
    /// Does this library support performing this option itself?
    pub fn support_local(&self) -> (r: bool)
        ensures
            r == (*self == TelnetOption::TransmitBinary),
    {
        match self {
            TelnetOption::TransmitBinary => true,
            _ => false,
        }
    }

    /// Does this library support the peer performing this option?
    pub fn support_remote(&self) -> (r: bool)
        ensures
            r == (*self == TelnetOption::TransmitBinary),
    {
        match self {
            TelnetOption::TransmitBinary => true,
            _ => false,
        }
    }
}

impl From<u8> for TelnetOption {
    /// The option named by a wire code.
    fn from(byte: u8) -> (r: TelnetOption) {
        if byte == option_codes::BINARY {
            TelnetOption::TransmitBinary
        } else if byte == option_codes::ECHO {
            TelnetOption::Echo
        } else if byte == option_codes::RCP {
            TelnetOption::Reconnection
        } else if byte == option_codes::SGA {
            TelnetOption::SuppressGoAhead
        } else if byte == option_codes::NAMS {
            TelnetOption::ApproxMessageSizeNegotiation
        } else if byte == option_codes::STATUS {
            TelnetOption::Status
        } else if byte == option_codes::TM {
            TelnetOption::TimingMark
        } else if byte == option_codes::RCTE {
            TelnetOption::RCTE
        } else if byte == option_codes::NAOL {
            TelnetOption::OutLineWidth
        } else if byte == option_codes::NAOP {
            TelnetOption::OutPageSize
        } else if byte == option_codes::NAOCRD {
            TelnetOption::NAOCRD
        } else if byte == option_codes::NAOHTS {
            TelnetOption::NAOHTS
        } else if byte == option_codes::NAOHTD {
            TelnetOption::NAOHTD
        } else if byte == option_codes::NAOFFD {
            TelnetOption::NAOFFD
        } else if byte == option_codes::NAOVTS {
            TelnetOption::NAOVTS
        } else if byte == option_codes::NAOVTD {
            TelnetOption::NAOVTD
        } else if byte == option_codes::NAOLFD {
            TelnetOption::NAOLFD
        } else if byte == option_codes::XASCII {
            TelnetOption::XASCII
        } else if byte == option_codes::LOGOUT {
            TelnetOption::Logout
        } else if byte == option_codes::BM {
            TelnetOption::ByteMacro
        } else if byte == option_codes::DET {
            TelnetOption::DET
        } else if byte == option_codes::SUPDUP {
            TelnetOption::SUPDUP
        } else if byte == option_codes::SUPDUP_OUTPUT {
            TelnetOption::SUPDUPOutput
        } else if byte == option_codes::SNDLOC {
            TelnetOption::SNDLOC
        } else if byte == option_codes::TTYPE {
            TelnetOption::TTYPE
        } else if byte == option_codes::EOR {
            TelnetOption::EOR
        } else if byte == option_codes::TUID {
            TelnetOption::TUID
        } else if byte == option_codes::OUTMRK {
            TelnetOption::OUTMRK
        } else if byte == option_codes::TTYLOC {
            TelnetOption::TTYLOC
        } else if byte == option_codes::OPT3270REGIME {
            TelnetOption::OPT3270Regime
        } else if byte == option_codes::X3PAD {
            TelnetOption::X3PAD
        } else if byte == option_codes::NAWS {
            TelnetOption::NAWS
        } else if byte == option_codes::TSPEED {
            TelnetOption::TSPEED
        } else if byte == option_codes::LFLOW {
            TelnetOption::LFLOW
        } else if byte == option_codes::LINEMODE {
            TelnetOption::Linemode
        } else if byte == option_codes::XDISPLOC {
            TelnetOption::XDISPLOC
        } else if byte == option_codes::OLD_ENVIRONMENT {
            TelnetOption::Environment
        } else if byte == option_codes::AUTHENTICATION {
            TelnetOption::Authentication
        } else if byte == option_codes::ENCRYPTION {
            TelnetOption::Encryption
        } else if byte == option_codes::NEW_ENVIRONMENT {
            TelnetOption::NewEnvironment
        } else if byte == option_codes::TN3270E {
            TelnetOption::TN3270E
        } else if byte == option_codes::XAUTH {
            TelnetOption::XAUTH
        } else if byte == option_codes::CHARSET {
            TelnetOption::Charset
        } else if byte == option_codes::TRSP {
            TelnetOption::TRSP
        } else if byte == option_codes::CPCO {
            TelnetOption::CPCO
        } else if byte == option_codes::TSLE {
            TelnetOption::TSLE
        } else if byte == option_codes::START_TLS {
            TelnetOption::StartTLS
        } else if byte == option_codes::KERMIT {
            TelnetOption::Kermit
        } else if byte == option_codes::SENDURL {
            TelnetOption::SendUrl
        } else if byte == option_codes::FORWARDX {
            TelnetOption::ForwardX
        } else if byte == option_codes::MSDP {
            TelnetOption::MSDP
        } else if byte == option_codes::MSSP {
            TelnetOption::MSSP
        } else if byte == option_codes::COMPRESS1 {
            TelnetOption::Compress1
        } else if byte == option_codes::COMPRESS2 {
            TelnetOption::Compress2
        } else if byte == option_codes::ZMP {
            TelnetOption::ZMP
        } else if byte == option_codes::PRAGMA_LOGIN {
            TelnetOption::PragmaLogon
        } else if byte == option_codes::SSPI_LOGIN {
            TelnetOption::SSPILogon
        } else if byte == option_codes::PRAGMA_HEARTBEAT {
            TelnetOption::PragmaHeartbeat
        } else if byte == option_codes::EXOPL {
            TelnetOption::EXOPL
        } else {
            TelnetOption::Unknown(byte)
        }
    }
}

impl vstd::std_specs::convert::FromSpecImpl<u8> for TelnetOption {
    open spec fn obeys_from_spec() -> bool {
        true
    }

    open spec fn from_spec(byte: u8) -> TelnetOption {
        spec_option_of(byte)
    }
}

impl From<TelnetOption> for u8 {
    /// The wire code of an option.
    fn from(option: TelnetOption) -> (r: u8) {
        match option {
            TelnetOption::TransmitBinary => option_codes::BINARY,
            TelnetOption::Echo => option_codes::ECHO,
            TelnetOption::Reconnection => option_codes::RCP,
            TelnetOption::SuppressGoAhead => option_codes::SGA,
            TelnetOption::ApproxMessageSizeNegotiation => option_codes::NAMS,
            TelnetOption::Status => option_codes::STATUS,
            TelnetOption::TimingMark => option_codes::TM,
            TelnetOption::RCTE => option_codes::RCTE,
            TelnetOption::OutLineWidth => option_codes::NAOL,
            TelnetOption::OutPageSize => option_codes::NAOP,
            TelnetOption::NAOCRD => option_codes::NAOCRD,
            TelnetOption::NAOHTS => option_codes::NAOHTS,
            TelnetOption::NAOHTD => option_codes::NAOHTD,
            TelnetOption::NAOFFD => option_codes::NAOFFD,
            TelnetOption::NAOVTS => option_codes::NAOVTS,
            TelnetOption::NAOVTD => option_codes::NAOVTD,
            TelnetOption::NAOLFD => option_codes::NAOLFD,
            TelnetOption::XASCII => option_codes::XASCII,
            TelnetOption::Logout => option_codes::LOGOUT,
            TelnetOption::ByteMacro => option_codes::BM,
            TelnetOption::DET => option_codes::DET,
            TelnetOption::SUPDUP => option_codes::SUPDUP,
            TelnetOption::SUPDUPOutput => option_codes::SUPDUP_OUTPUT,
            TelnetOption::SNDLOC => option_codes::SNDLOC,
            TelnetOption::TTYPE => option_codes::TTYPE,
            TelnetOption::EOR => option_codes::EOR,
            TelnetOption::TUID => option_codes::TUID,
            TelnetOption::OUTMRK => option_codes::OUTMRK,
            TelnetOption::TTYLOC => option_codes::TTYLOC,
            TelnetOption::OPT3270Regime => option_codes::OPT3270REGIME,
            TelnetOption::X3PAD => option_codes::X3PAD,
            TelnetOption::NAWS => option_codes::NAWS,
            TelnetOption::TSPEED => option_codes::TSPEED,
            TelnetOption::LFLOW => option_codes::LFLOW,
            TelnetOption::Linemode => option_codes::LINEMODE,
            TelnetOption::XDISPLOC => option_codes::XDISPLOC,
            TelnetOption::Environment => option_codes::OLD_ENVIRONMENT,
            TelnetOption::Authentication => option_codes::AUTHENTICATION,
            TelnetOption::Encryption => option_codes::ENCRYPTION,
            TelnetOption::NewEnvironment => option_codes::NEW_ENVIRONMENT,
            TelnetOption::TN3270E => option_codes::TN3270E,
            TelnetOption::XAUTH => option_codes::XAUTH,
            TelnetOption::Charset => option_codes::CHARSET,
            TelnetOption::TRSP => option_codes::TRSP,
            TelnetOption::CPCO => option_codes::CPCO,
            TelnetOption::TSLE => option_codes::TSLE,
            TelnetOption::StartTLS => option_codes::START_TLS,
            TelnetOption::Kermit => option_codes::KERMIT,
            TelnetOption::SendUrl => option_codes::SENDURL,
            TelnetOption::ForwardX => option_codes::FORWARDX,
            TelnetOption::MSDP => option_codes::MSDP,
            TelnetOption::MSSP => option_codes::MSSP,
            TelnetOption::Compress1 => option_codes::COMPRESS1,
            TelnetOption::Compress2 => option_codes::COMPRESS2,
            TelnetOption::ZMP => option_codes::ZMP,
            TelnetOption::PragmaLogon => option_codes::PRAGMA_LOGIN,
            TelnetOption::SSPILogon => option_codes::SSPI_LOGIN,
            TelnetOption::PragmaHeartbeat => option_codes::PRAGMA_HEARTBEAT,
            TelnetOption::EXOPL => option_codes::EXOPL,
            TelnetOption::Unknown(byte) => byte,
        }
    }
}

impl vstd::std_specs::convert::FromSpecImpl<TelnetOption> for u8 {
    open spec fn obeys_from_spec() -> bool {
        true
    }

    open spec fn from_spec(option: TelnetOption) -> u8 {
        spec_option_code(option)
    }
}

/// The option enumeration covers the code space exactly: taking any wire
/// code to its option name and back is the identity.
pub proof fn lemma_option_code_round_trip(byte: u8)
    ensures
        spec_option_code(spec_option_of(byte)) == byte,
{
}

/// Taking a named option to its wire code and back is the identity; only
/// `Unknown` values of an assigned code normalize to the assigned name.
pub proof fn lemma_option_name_round_trip(option: TelnetOption)
    requires
        !(option is Unknown),
    ensures
        spec_option_of(spec_option_code(option)) == option,
{
}

} // verus!
