use vstd::prelude::*;

verus! {

/// Binary Option Code
pub const BINARY: u8 = 0;
/// Echo Option Code
pub const ECHO: u8 = 1;
/// Reconnection Option Code
pub const RCP: u8 = 2;
/// Suppress Go Ahead Option Code
pub const SGA: u8 = 3;
/// Negotiate Approx Message Size Option Code
pub const NAMS: u8 = 4;
/// Terminal Option Status Option Code
pub const STATUS: u8 = 5;
/// Timing Mark Option Code
pub const TM: u8 = 6;
/// Remote Controlled Transmission and Echoing Option Code
pub const RCTE: u8 = 7;
/// Negotiate About Output Linewidth Option Code
pub const NAOL: u8 = 8;
/// Negotiate About Output Page Size Option Code
pub const NAOP: u8 = 9;
/// Negotiate About Output Carriage Return Disposition Option Code
pub const NAOCRD: u8 = 10;
/// Negotiate About Output Horizontal Tab Stops Option Code
pub const NAOHTS: u8 = 11;
/// Negotiate About Output Horizontal Tab Disposition Option Code
pub const NAOHTD: u8 = 12;
/// Negotiate About Output Form Feed Disposition Option Code
pub const NAOFFD: u8 = 13;
/// Negotiate About Output Vertical Tab Stops Option Code
pub const NAOVTS: u8 = 14;
/// Negotiate About Output Vertical Tab Disposition Option Code
pub const NAOVTD: u8 = 15;
/// Negotiate About Output Linefeed Disposition Option Code
pub const NAOLFD: u8 = 16;
/// Extended ASCII Option Code
pub const XASCII: u8 = 17;
/// Logout Option Code
pub const LOGOUT: u8 = 18;
/// Byte Macro Option Code
pub const BM: u8 = 19;
/// Data Entry Terminal Option Code
pub const DET: u8 = 20;
/// SUPDUP Option Code
pub const SUPDUP: u8 = 21;
/// SUPDUP Output Option Code
pub const SUPDUP_OUTPUT: u8 = 22;
/// Send Location Option Code
pub const SNDLOC: u8 = 23;
/// Terminal Type Option Code
pub const TTYPE: u8 = 24;
/// End of Record Option Code
pub const EOR: u8 = 25;
/// TACACS User Identification Option Code
pub const TUID: u8 = 26;
/// Output Marking Option Code
pub const OUTMRK: u8 = 27;
/// Terminal Location Number Option Code
pub const TTYLOC: u8 = 28;
/// Telnet 3270 Regime Option Code
pub const OPT3270REGIME: u8 = 29;
/// X.3 PAD Option Code
pub const X3PAD: u8 = 30;
/// Negotiate About Window Size Option Code
pub const NAWS: u8 = 31;
/// Terminal Speed Option Code
pub const TSPEED: u8 = 32;
/// Remote Flow Control Option Code
pub const LFLOW: u8 = 33;
/// Linemode Option Code
pub const LINEMODE: u8 = 34;
/// X Display Location Option Code
pub const XDISPLOC: u8 = 35;
/// Environment Option Code
pub const OLD_ENVIRONMENT: u8 = 36;
/// Authentication Option Code
pub const AUTHENTICATION: u8 = 37;
/// Encryption Option Code
pub const ENCRYPTION: u8 = 38;
/// New Environment Option Code
pub const NEW_ENVIRONMENT: u8 = 39;
/// TN3270E Option Code
pub const TN3270E: u8 = 40;
/// XAUTH Option Code
pub const XAUTH: u8 = 41;
/// Charset Option Code
pub const CHARSET: u8 = 42;
/// Telnet Remote Serial Port Option Code
pub const TRSP: u8 = 43;
/// Com Port Control Option Code
pub const CPCO: u8 = 44;
/// Telnet Suppress Local Echo Option Code
pub const TSLE: u8 = 45;
/// Telnet Start TLS Option Code
pub const START_TLS: u8 = 46;
/// Kermit Option Code
pub const KERMIT: u8 = 47;
/// SEND-URL Option Code
pub const SENDURL: u8 = 48;
/// FORWARD_X Option Code
pub const FORWARDX: u8 = 49;
/// Mud Server Data Protocol Option Code
pub const MSDP: u8 = 69;
/// Mud Server Status Protocol Option Code
pub const MSSP: u8 = 70;
/// Mud Client Compression Protocol version 1 Option Code
pub const COMPRESS1: u8 = 85;
/// Mud Client Compression Protocol version 2 Option Code
pub const COMPRESS2: u8 = 86;
/// Zenith Mud Protocol Option Code
pub const ZMP: u8 = 93;
/// Telnet Option Pragma Logon Option Code
pub const PRAGMA_LOGIN: u8 = 138;
/// Telnet Option SSPI Logon Option Code
pub const SSPI_LOGIN: u8 = 139;
/// Telnet Option Pragma Heartbeat Option Code
pub const PRAGMA_HEARTBEAT: u8 = 140;
/// Generic Mud Communication Protocol Option Code
pub const GMCP: u8 = 201;
/// Extended-Options-List Option Code
pub const EXOPL: u8 = 255;

} // verus!
