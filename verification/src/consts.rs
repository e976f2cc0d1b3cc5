use vstd::prelude::*;

verus! {

/// Interpret As Command
pub const IAC: u8 = 255;
/// Option Not Available
pub const DONT: u8 = 254;
/// Option Available
pub const DO: u8 = 253;
/// Won't use this Option
pub const WONT: u8 = 252;
/// Will use this Option
pub const WILL: u8 = 251;
/// Subnegotiation Begin
pub const SB: u8 = 250;
/// Go Ahead
pub const GA: u8 = 249;
/// Erase Line
pub const EL: u8 = 248;
/// Erase Character
pub const EC: u8 = 247;
/// Are you There
pub const AYT: u8 = 246;
/// Abort Output
pub const AO: u8 = 245;
/// Interrupt Process
pub const IP: u8 = 244;
/// Break
pub const BRK: u8 = 243;
/// Data Mark
pub const DM: u8 = 242;
/// No Operation
pub const NOP: u8 = 241;
/// Subnegotiation End
pub const SE: u8 = 240;
/// End of Record
pub const EOR: u8 = 239;
/// Abort Process
pub const ABORT: u8 = 238;
/// Suspend Process
pub const SUSP: u8 = 237;
/// End of File (EOF already used)
pub const EOF: u8 = 236;
/// Negative Acknowledge
pub const NAK: u8 = 21;
/// Carriage Return
pub const CR: u8 = 13;
/// Line Feed
pub const LF: u8 = 10;
/// Null
pub const NUL: u8 = 0;

} // verus!
