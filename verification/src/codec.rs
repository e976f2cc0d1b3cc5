use vstd::prelude::*;

use crate::bytebuf::buf_clear;
use crate::bytebuf::buf_get_u8;
use crate::bytebuf::buf_len;
use crate::bytebuf::buf_new;
use crate::bytebuf::buf_put_u8;
use crate::bytebuf::buf_to_vec;
use crate::bytebuf::byte_content;
use crate::consts::AO;
use crate::consts::AYT;
use crate::consts::BRK;
use crate::consts::DM;
use crate::consts::DO;
use crate::consts::DONT;
use crate::consts::EC;
use crate::consts::EL;
use crate::consts::GA;
use crate::consts::IAC;
use crate::consts::IP;
use crate::consts::NOP;
use crate::consts::SB;
use crate::consts::SE;
use crate::consts::WILL;
use crate::consts::WONT;
use crate::error::DecodeError;
use crate::error::EncodeError;
use crate::frame::FrameModel;
use crate::frame::TelnetFrame;

verus! {

/// The largest subnegotiation payload bound the codec accepts: one byte of
/// headroom below the point where the underlying buffer could no longer grow.
pub const PAYLOAD_LIMIT: usize = usize::MAX / 2 - 1;

/// Where in the byte stream the decoder currently stands.
#[derive(Clone, Copy, Debug, PartialEq, Eq, Structural)]
pub enum DecoderState {
    /// Normal Data
    NormalData,
    /// Received IAC, next byte is a command
    InterpretAsCommand,
    /// Received Do command, next byte is an option
    NegotiateDo,
    /// Received Dont command, next byte is an option
    NegotiateDont,
    /// Received Will command, next byte is an option
    NegotiateWill,
    /// Received Wont command, next byte is an option
    NegotiateWont,
    /// Received Subnegotiate command, next byte is an option
    Subnegotiate,
    /// Received Subnegotiate option, next bytes are arguments
    SubnegotiateArgument(u8),
    /// Received IAC during subnegotiation, next byte is a command
    SubnegotiateArgumentIAC(u8),
}

/// What one decoding step produced: nothing yet, a complete frame, or an error.
pub enum StepOut {
    Pending,
    Emit(FrameModel),
    Fail(DecodeError),
}

/// The decoder after one byte: its state, its accumulated subnegotiation
/// payload, and what the byte produced.
pub struct StepResult {
    pub state: DecoderState,
    pub payload: Seq<u8>,
    pub out: StepOut,
}

/// The decoder's transition function: one state, one byte.  `max` is the
/// configured subnegotiation payload bound.
pub open spec fn spec_step(max: nat, s: DecoderState, payload: Seq<u8>, byte: u8) -> StepResult {
    match s {
        DecoderState::NormalData => {
            if byte == IAC {
                StepResult { state: DecoderState::InterpretAsCommand, payload, out: StepOut::Pending }
            } else {
                StepResult { state: DecoderState::NormalData, payload, out: StepOut::Emit(FrameModel::Data(byte)) }
            }
        },
        DecoderState::InterpretAsCommand => {
            if byte == NOP {
                StepResult { state: DecoderState::NormalData, payload, out: StepOut::Emit(FrameModel::NoOperation) }
            } else if byte == DM {
                StepResult { state: DecoderState::NormalData, payload, out: StepOut::Emit(FrameModel::DataMark) }
            } else if byte == BRK {
                StepResult { state: DecoderState::NormalData, payload, out: StepOut::Emit(FrameModel::Break) }
            } else if byte == IP {
                StepResult { state: DecoderState::NormalData, payload, out: StepOut::Emit(FrameModel::InterruptProcess) }
            } else if byte == AO {
                StepResult { state: DecoderState::NormalData, payload, out: StepOut::Emit(FrameModel::AbortOutput) }
            } else if byte == AYT {
                StepResult { state: DecoderState::NormalData, payload, out: StepOut::Emit(FrameModel::AreYouThere) }
            } else if byte == EC {
                StepResult { state: DecoderState::NormalData, payload, out: StepOut::Emit(FrameModel::EraseCharacter) }
            } else if byte == EL {
                StepResult { state: DecoderState::NormalData, payload, out: StepOut::Emit(FrameModel::EraseLine) }
            } else if byte == GA {
                StepResult { state: DecoderState::NormalData, payload, out: StepOut::Emit(FrameModel::GoAhead) }
            } else if byte == IAC {
                StepResult { state: DecoderState::NormalData, payload, out: StepOut::Emit(FrameModel::Data(IAC)) }
            } else if byte == DO {
                StepResult { state: DecoderState::NegotiateDo, payload, out: StepOut::Pending }
            } else if byte == DONT {
                StepResult { state: DecoderState::NegotiateDont, payload, out: StepOut::Pending }
            } else if byte == WILL {
                StepResult { state: DecoderState::NegotiateWill, payload, out: StepOut::Pending }
            } else if byte == WONT {
                StepResult { state: DecoderState::NegotiateWont, payload, out: StepOut::Pending }
            } else if byte == SB {
                StepResult { state: DecoderState::Subnegotiate, payload, out: StepOut::Pending }
            } else {
                StepResult {
                    state: DecoderState::NormalData,
                    payload,
                    out: StepOut::Fail(DecodeError::UnknownCommand(byte)),
                }
            }
        },
        DecoderState::NegotiateDo => {
            StepResult { state: DecoderState::NormalData, payload, out: StepOut::Emit(FrameModel::Do(byte)) }
        },
        DecoderState::NegotiateDont => {
            StepResult { state: DecoderState::NormalData, payload, out: StepOut::Emit(FrameModel::Dont(byte)) }
        },
        DecoderState::NegotiateWill => {
            StepResult { state: DecoderState::NormalData, payload, out: StepOut::Emit(FrameModel::Will(byte)) }
        },
        DecoderState::NegotiateWont => {
            StepResult { state: DecoderState::NormalData, payload, out: StepOut::Emit(FrameModel::Wont(byte)) }
        },
        DecoderState::Subnegotiate => {
            StepResult { state: DecoderState::SubnegotiateArgument(byte), payload, out: StepOut::Pending }
        },
        DecoderState::SubnegotiateArgument(opt) => {
            if byte == IAC {
                StepResult { state: DecoderState::SubnegotiateArgumentIAC(opt), payload, out: StepOut::Pending }
            } else if payload.len() < max {
                StepResult {
                    state: DecoderState::SubnegotiateArgument(opt),
                    payload: payload.push(byte),
                    out: StepOut::Pending,
                }
            } else {
                StepResult {
                    state: DecoderState::NormalData,
                    payload: Seq::empty(),
                    out: StepOut::Fail(DecodeError::SubnegotiationTooLong),
                }
            }
        },
        DecoderState::SubnegotiateArgumentIAC(opt) => {
            if byte == IAC {
                if payload.len() < max {
                    StepResult {
                        state: DecoderState::SubnegotiateArgument(opt),
                        payload: payload.push(IAC),
                        out: StepOut::Pending,
                    }
                } else {
                    StepResult {
                        state: DecoderState::NormalData,
                        payload: Seq::empty(),
                        out: StepOut::Fail(DecodeError::SubnegotiationTooLong),
                    }
                }
            } else if byte == SE {
                StepResult {
                    state: DecoderState::NormalData,
                    payload: Seq::empty(),
                    out: StepOut::Emit(FrameModel::Subnegotiate(opt, payload)),
                }
            } else {
                StepResult {
                    state: DecoderState::NormalData,
                    payload: Seq::empty(),
                    out: StepOut::Fail(DecodeError::UnknownCommand(byte)),
                }
            }
        },
    }
}

/// One whole call of `decode`: how many bytes it consumes from the front of
/// the input, the decoder it leaves behind, and what it returns.  `Pending`
/// means the whole input was consumed without completing a frame.
pub struct DecodeRun {
    pub consumed: int,
    pub state: DecoderState,
    pub payload: Seq<u8>,
    pub out: StepOut,
}

/// Run the decoder from state `s` over `input` until the first frame or
/// error, or until the input runs out.
pub open spec fn spec_decode(max: nat, s: DecoderState, payload: Seq<u8>, input: Seq<u8>) -> DecodeRun
    decreases input.len(),
{
    if input.len() == 0 {
        DecodeRun { consumed: 0, state: s, payload, out: StepOut::Pending }
    } else {
        let st = spec_step(max, s, payload, input[0]);
        match st.out {
            StepOut::Pending => {
                let rest = spec_decode(max, st.state, st.payload, input.skip(1));
                DecodeRun { consumed: rest.consumed + 1, state: rest.state, payload: rest.payload, out: rest.out }
            },
            _ => DecodeRun { consumed: 1, state: st.state, payload: st.payload, out: st.out },
        }
    }
}

/// A subnegotiation payload as it appears on the wire: every IAC byte
/// doubled, all others unchanged.
pub open spec fn spec_escape(payload: Seq<u8>) -> Seq<u8>
    decreases payload.len(),
{
    if payload.len() == 0 {
        Seq::empty()
    } else {
        let head = if payload[0] == IAC {
            seq![IAC, IAC]
        } else {
            seq![payload[0]]
        };
        head + spec_escape(payload.skip(1))
    }
}

/// The byte sequence a frame is serialized to: data bytes pass through (IAC
/// doubled), commands are `IAC cmd`, negotiation is `IAC cmd opt`, and a
/// subnegotiation is `IAC SB opt`, the escaped payload, `IAC SE`.
pub open spec fn spec_encode(f: FrameModel) -> Seq<u8> {
    match f {
        FrameModel::Data(b) => if b == IAC {
            seq![IAC, IAC]
        } else {
            seq![b]
        },
        FrameModel::NoOperation => seq![IAC, NOP],
        FrameModel::DataMark => seq![IAC, DM],
        FrameModel::Break => seq![IAC, BRK],
        FrameModel::InterruptProcess => seq![IAC, IP],
        FrameModel::AbortOutput => seq![IAC, AO],
        FrameModel::AreYouThere => seq![IAC, AYT],
        FrameModel::EraseCharacter => seq![IAC, EC],
        FrameModel::EraseLine => seq![IAC, EL],
        FrameModel::GoAhead => seq![IAC, GA],
        FrameModel::Do(opt) => seq![IAC, DO, opt],
        FrameModel::Dont(opt) => seq![IAC, DONT, opt],
        FrameModel::Will(opt) => seq![IAC, WILL, opt],
        FrameModel::Wont(opt) => seq![IAC, WONT, opt],
        FrameModel::Subnegotiate(opt, payload) => seq![IAC, SB, opt] + spec_escape(payload) + seq![IAC, SE],
    }
}

/// Escaping distributes over appending one byte at the end.
pub proof fn lemma_escape_push(payload: Seq<u8>, b: u8)
    ensures
        spec_escape(payload.push(b)) == spec_escape(payload) + (if b == IAC {
            seq![IAC, IAC]
        } else {
            seq![b]
        }),
    decreases payload.len(),
{
    let chunk = if b == IAC {
        seq![IAC, IAC]
    } else {
        seq![b]
    };
    if payload.len() == 0 {
        assert(payload.push(b) =~= seq![b]);
        assert(seq![b].skip(1) =~= Seq::<u8>::empty());
        assert(spec_escape(Seq::<u8>::empty()) == Seq::<u8>::empty());
        assert(spec_escape(seq![b]) =~= chunk + Seq::<u8>::empty());
        assert(chunk + Seq::<u8>::empty() =~= chunk);
        assert(spec_escape(payload) + chunk =~= chunk);
    } else {
        assert(payload.push(b).skip(1) =~= payload.skip(1).push(b));
        lemma_escape_push(payload.skip(1), b);
        let head = if payload[0] == IAC {
            seq![IAC, IAC]
        } else {
            seq![payload[0]]
        };
        assert(spec_escape(payload.push(b)) == head + (spec_escape(payload.skip(1)) + chunk));
        assert(head + (spec_escape(payload.skip(1)) + chunk) =~= (head + spec_escape(payload.skip(1))) + chunk);
    }
}

/// Escaping distributes over concatenation.
pub proof fn lemma_escape_concat(a: Seq<u8>, b: Seq<u8>)
    ensures
        spec_escape(a + b) == spec_escape(a) + spec_escape(b),
    decreases a.len(),
{
    if a.len() == 0 {
        assert(a + b =~= b);
        assert(spec_escape(a) + spec_escape(b) =~= spec_escape(b));
    } else {
        assert((a + b).skip(1) =~= a.skip(1) + b);
        lemma_escape_concat(a.skip(1), b);
        let head = if a[0] == IAC {
            seq![IAC, IAC]
        } else {
            seq![a[0]]
        };
        assert((a + b)[0] == a[0]);
        assert(spec_escape(a + b) == head + (spec_escape(a.skip(1)) + spec_escape(b)));
        assert(head + (spec_escape(a.skip(1)) + spec_escape(b)) =~= (head + spec_escape(a.skip(1)))
            + spec_escape(b));
    }
}

/// An escaped payload is at least as long as the payload and at most twice
/// as long.
pub proof fn lemma_escape_len(payload: Seq<u8>)
    ensures
        payload.len() <= spec_escape(payload).len() <= 2 * payload.len(),
    decreases payload.len(),
{
    if payload.len() > 0 {
        lemma_escape_len(payload.skip(1));
    }
}

/// The mathematical value of a `TelnetCodec`: decoder state, accumulated
/// subnegotiation payload, and the configured payload bound.
pub struct CodecModel {
    pub state: DecoderState,
    pub payload: Seq<u8>,
    pub max: nat,
}

/// A streaming codec for the Telnet wire format: `decode` turns bytes into
/// frames, `encode` turns frames back into bytes.
pub struct TelnetCodec {
    decoder_buffer: bytes::BytesMut,
    decoder_state: DecoderState,
    max_payload: usize,
}

impl View for TelnetCodec {
    type V = CodecModel;

    closed spec fn view(&self) -> CodecModel {
        CodecModel {
            state: self.decoder_state,
            payload: byte_content(self.decoder_buffer),
            max: self.max_payload as nat,
        }
    }
}

impl TelnetCodec {
    /// The payload buffer is only in use while a subnegotiation is being
    /// read, and the configured bound leaves the buffer room to grow.
    pub open spec fn wf(&self) -> bool {
        &&& self@.max <= PAYLOAD_LIMIT as nat
        &&& match self@.state {
            DecoderState::SubnegotiateArgument(_) => true,
            DecoderState::SubnegotiateArgumentIAC(_) => true,
            _ => self@.payload.len() == 0,
        }
    }

    /// A fresh codec with the given bound on subnegotiation payload length.
    pub fn with_max_payload(max: usize) -> (r: TelnetCodec)
        requires
            max <= PAYLOAD_LIMIT,
        ensures
            r.wf(),
            r@.state == DecoderState::NormalData,
            r@.payload == Seq::<u8>::empty(),
            r@.max == max as nat,
    {
        TelnetCodec { decoder_buffer: buf_new(), decoder_state: DecoderState::NormalData, max_payload: max }
    }

    /// Decode incoming data, then take the first frame.
    ///
    /// Consumes bytes from the front of `src` up to and including the last
    /// byte of the first complete frame (or of the erroneous command), and
    /// returns that frame, the error, or `None` when `src` ran out first.
    pub fn decode(&mut self, src: &mut bytes::BytesMut) -> (r: Result<Option<TelnetFrame>, DecodeError>)
        requires
            old(self).wf(),
        ensures
            final(self).wf(),
            final(self)@.max == old(self)@.max,
            ({
                let run = spec_decode(old(self)@.max, old(self)@.state, old(self)@.payload, byte_content(*old(src)));
                &&& byte_content(*final(src)) == byte_content(*old(src)).skip(run.consumed)
                &&& final(self)@.state == run.state
                &&& final(self)@.payload == run.payload
                &&& match run.out {
                    StepOut::Pending => r matches Ok(o) && o is None,
                    StepOut::Emit(f) => r matches Ok(o) && o matches Some(frame) && frame@ == f,
                    StepOut::Fail(e) => r matches Err(e2) && e2 == e,
                }
            }),
    {
        let ghost max = old(self)@.max;
        let ghost input0 = byte_content(*old(src));
        let ghost mut consumed: int = 0;
        loop
            invariant
                max == old(self)@.max,
                input0 == byte_content(*old(src)),
                self.wf(),
                self@.max == max,
                0 <= consumed <= input0.len(),
                byte_content(*src) == input0.skip(consumed),
                spec_decode(max, old(self)@.state, old(self)@.payload, input0) == ({
                    let rest = spec_decode(max, self@.state, self@.payload, byte_content(*src));
                    DecodeRun {
                        consumed: consumed + rest.consumed,
                        state: rest.state,
                        payload: rest.payload,
                        out: rest.out,
                    }
                }),
            decreases byte_content(*src).len(),
        {
            if buf_len(src) == 0 {
                return Ok(None);
            }
            let ghost before = byte_content(*src);
            let byte = buf_get_u8(src);
            proof {
                consumed = consumed + 1;
                assert(byte_content(*src) =~= input0.skip(consumed));
            }
            match self.decoder_state {
                DecoderState::NormalData => {
                    if byte == IAC {
                        self.decoder_state = DecoderState::InterpretAsCommand;
                    } else {
                        self.decoder_state = DecoderState::NormalData;
                        return Ok(Some(TelnetFrame::Data(byte)));
                    }
                },
                DecoderState::InterpretAsCommand => {
                    if byte == NOP {
                        self.decoder_state = DecoderState::NormalData;
                        return Ok(Some(TelnetFrame::NoOperation));
                    } else if byte == DM {
                        self.decoder_state = DecoderState::NormalData;
                        return Ok(Some(TelnetFrame::DataMark));
                    } else if byte == BRK {
                        self.decoder_state = DecoderState::NormalData;
                        return Ok(Some(TelnetFrame::Break));
                    } else if byte == IP {
                        self.decoder_state = DecoderState::NormalData;
                        return Ok(Some(TelnetFrame::InterruptProcess));
                    } else if byte == AO {
                        self.decoder_state = DecoderState::NormalData;
                        return Ok(Some(TelnetFrame::AbortOutput));
                    } else if byte == AYT {
                        self.decoder_state = DecoderState::NormalData;
                        return Ok(Some(TelnetFrame::AreYouThere));
                    } else if byte == EC {
                        self.decoder_state = DecoderState::NormalData;
                        return Ok(Some(TelnetFrame::EraseCharacter));
                    } else if byte == EL {
                        self.decoder_state = DecoderState::NormalData;
                        return Ok(Some(TelnetFrame::EraseLine));
                    } else if byte == GA {
                        self.decoder_state = DecoderState::NormalData;
                        return Ok(Some(TelnetFrame::GoAhead));
                    } else if byte == IAC {
                        self.decoder_state = DecoderState::NormalData;
                        return Ok(Some(TelnetFrame::Data(IAC)));
                    } else if byte == DO {
                        self.decoder_state = DecoderState::NegotiateDo;
                    } else if byte == DONT {
                        self.decoder_state = DecoderState::NegotiateDont;
                    } else if byte == WILL {
                        self.decoder_state = DecoderState::NegotiateWill;
                    } else if byte == WONT {
                        self.decoder_state = DecoderState::NegotiateWont;
                    } else if byte == SB {
                        self.decoder_state = DecoderState::Subnegotiate;
                    } else {
                        self.decoder_state = DecoderState::NormalData;
                        return Err(DecodeError::UnknownCommand(byte));
                    }
                },
                DecoderState::NegotiateDo => {
                    self.decoder_state = DecoderState::NormalData;
                    return Ok(Some(TelnetFrame::Do(byte)));
                },
                DecoderState::NegotiateDont => {
                    self.decoder_state = DecoderState::NormalData;
                    return Ok(Some(TelnetFrame::Dont(byte)));
                },
                DecoderState::NegotiateWill => {
                    self.decoder_state = DecoderState::NormalData;
                    return Ok(Some(TelnetFrame::Will(byte)));
                },
                DecoderState::NegotiateWont => {
                    self.decoder_state = DecoderState::NormalData;
                    return Ok(Some(TelnetFrame::Wont(byte)));
                },
                DecoderState::Subnegotiate => {
                    self.decoder_state = DecoderState::SubnegotiateArgument(byte);
                },
                DecoderState::SubnegotiateArgument(option) => {
                    if byte == IAC {
                        self.decoder_state = DecoderState::SubnegotiateArgumentIAC(option);
                    } else if buf_len(&self.decoder_buffer) < self.max_payload {
                        buf_put_u8(&mut self.decoder_buffer, byte);
                    } else {
                        self.decoder_state = DecoderState::NormalData;
                        buf_clear(&mut self.decoder_buffer);
                        return Err(DecodeError::SubnegotiationTooLong);
                    }
                },
                DecoderState::SubnegotiateArgumentIAC(option) => {
                    if byte == IAC {
                        if buf_len(&self.decoder_buffer) < self.max_payload {
                            self.decoder_state = DecoderState::SubnegotiateArgument(option);
                            buf_put_u8(&mut self.decoder_buffer, IAC);
                        } else {
                            self.decoder_state = DecoderState::NormalData;
                            buf_clear(&mut self.decoder_buffer);
                            return Err(DecodeError::SubnegotiationTooLong);
                        }
                    } else if byte == SE {
                        self.decoder_state = DecoderState::NormalData;
                        let payload = buf_to_vec(&self.decoder_buffer);
                        buf_clear(&mut self.decoder_buffer);
                        return Ok(Some(TelnetFrame::Subnegotiate(option, payload)));
                    } else {
                        self.decoder_state = DecoderState::NormalData;
                        buf_clear(&mut self.decoder_buffer);
                        return Err(DecodeError::UnknownCommand(byte));
                    }
                },
            }
        }
    }
    /// Serialize one frame to the back of `dst`.
    ///
    /// Writing to a byte buffer cannot fail; the `Result` mirrors the shape
    /// a transport-facing encoder hands further down.
    pub fn encode(&mut self, item: TelnetFrame, dst: &mut bytes::BytesMut) -> (r: Result<(), EncodeError>)
        requires
            byte_content(*old(dst)).len() + spec_encode(item@).len() <= usize::MAX / 2,
        ensures
            *final(self) == *old(self),
            byte_content(*final(dst)) == byte_content(*old(dst)) + spec_encode(item@),
            r is Ok,
    {
        encode_frame(item, dst)
    }
}

/// Serialize one frame to the back of `dst`: the encoder has no state of
/// its own.
pub fn encode_frame(item: TelnetFrame, dst: &mut bytes::BytesMut) -> (r: Result<(), EncodeError>)
    requires
        byte_content(*old(dst)).len() + spec_encode(item@).len() <= usize::MAX / 2,
    ensures
        byte_content(*final(dst)) == byte_content(*old(dst)) + spec_encode(item@),
        r is Ok,
{
    let ghost dst0 = byte_content(*old(dst));
    let ghost model = item@;
    match item {
        TelnetFrame::Data(ch) => {
            if ch == IAC {
                buf_put_u8(dst, IAC);
            }
            buf_put_u8(dst, ch);
            proof {
                assert(byte_content(*dst) =~= dst0 + spec_encode(model));
            }
        },
        TelnetFrame::NoOperation => {
            buf_put_u8(dst, IAC);
            buf_put_u8(dst, NOP);
            proof {
                assert(byte_content(*dst) =~= dst0 + spec_encode(model));
            }
        },
        TelnetFrame::DataMark => {
            buf_put_u8(dst, IAC);
            buf_put_u8(dst, DM);
            proof {
                assert(byte_content(*dst) =~= dst0 + spec_encode(model));
            }
        },
        TelnetFrame::Break => {
            buf_put_u8(dst, IAC);
            buf_put_u8(dst, BRK);
            proof {
                assert(byte_content(*dst) =~= dst0 + spec_encode(model));
            }
        },
        TelnetFrame::InterruptProcess => {
            buf_put_u8(dst, IAC);
            buf_put_u8(dst, IP);
            proof {
                assert(byte_content(*dst) =~= dst0 + spec_encode(model));
            }
        },
        TelnetFrame::AbortOutput => {
            buf_put_u8(dst, IAC);
            buf_put_u8(dst, AO);
            proof {
                assert(byte_content(*dst) =~= dst0 + spec_encode(model));
            }
        },
        TelnetFrame::AreYouThere => {
            buf_put_u8(dst, IAC);
            buf_put_u8(dst, AYT);
            proof {
                assert(byte_content(*dst) =~= dst0 + spec_encode(model));
            }
        },
        TelnetFrame::EraseCharacter => {
            buf_put_u8(dst, IAC);
            buf_put_u8(dst, EC);
            proof {
                assert(byte_content(*dst) =~= dst0 + spec_encode(model));
            }
        },
        TelnetFrame::EraseLine => {
            buf_put_u8(dst, IAC);
            buf_put_u8(dst, EL);
            proof {
                assert(byte_content(*dst) =~= dst0 + spec_encode(model));
            }
        },
        TelnetFrame::GoAhead => {
            buf_put_u8(dst, IAC);
            buf_put_u8(dst, GA);
            proof {
                assert(byte_content(*dst) =~= dst0 + spec_encode(model));
            }
        },
        TelnetFrame::Do(option) => {
            buf_put_u8(dst, IAC);
            buf_put_u8(dst, DO);
            buf_put_u8(dst, option);
            proof {
                assert(byte_content(*dst) =~= dst0 + spec_encode(model));
            }
        },
        TelnetFrame::Dont(option) => {
            buf_put_u8(dst, IAC);
            buf_put_u8(dst, DONT);
            buf_put_u8(dst, option);
            proof {
                assert(byte_content(*dst) =~= dst0 + spec_encode(model));
            }
        },
        TelnetFrame::Will(option) => {
            buf_put_u8(dst, IAC);
            buf_put_u8(dst, WILL);
            buf_put_u8(dst, option);
            proof {
                assert(byte_content(*dst) =~= dst0 + spec_encode(model));
            }
        },
        TelnetFrame::Wont(option) => {
            buf_put_u8(dst, IAC);
            buf_put_u8(dst, WONT);
            buf_put_u8(dst, option);
            proof {
                assert(byte_content(*dst) =~= dst0 + spec_encode(model));
            }
        },
        TelnetFrame::Subnegotiate(option, arguments) => {
            proof {
                lemma_escape_len(arguments@);
            }
            buf_put_u8(dst, IAC);
            buf_put_u8(dst, SB);
            buf_put_u8(dst, option);
            let n = arguments.len();
            let mut i: usize = 0;
            while i < n
                invariant
                    i <= n,
                    n == arguments@.len(),
                    dst0.len() + spec_encode(FrameModel::Subnegotiate(option, arguments@)).len()
                        <= usize::MAX / 2,
                    byte_content(*dst) == dst0 + seq![IAC, SB, option] + spec_escape(
                        arguments@.take(i as int),
                    ),
                decreases n - i,
            {
                let b = arguments[i];
                proof {
                    lemma_escape_concat(arguments@.take(i as int), arguments@.skip(i as int));
                    lemma_escape_len(arguments@.take(i as int));
                    lemma_escape_len(arguments@.skip(i as int));
                    assert(arguments@.take(i as int) + arguments@.skip(i as int) =~= arguments@);
                    assert(arguments@.skip(i as int)[0] == b);
                    lemma_escape_push(arguments@.take(i as int), b);
                    assert(arguments@.take(i as int).push(b) =~= arguments@.take(i + 1 as int));
                }
                if b == IAC {
                    buf_put_u8(dst, IAC);
                    buf_put_u8(dst, IAC);
                } else {
                    buf_put_u8(dst, b);
                }
                proof {
                    assert(byte_content(*dst) =~= dst0 + seq![IAC, SB, option] + spec_escape(
                        arguments@.take(i + 1 as int),
                    ));
                }
                i = i + 1;
            }
            proof {
                assert(arguments@.take(n as int) =~= arguments@);
            }
            buf_put_u8(dst, IAC);
            buf_put_u8(dst, SE);
            proof {
                assert(byte_content(*dst) =~= dst0 + spec_encode(model));
            }
        },
    }
    Ok(())
}

impl Default for TelnetCodec {
    /// A fresh codec in normal data state, with the payload bound at its
    /// effectively unbounded maximum.
    fn default() -> (r: TelnetCodec)
        ensures
            r.wf(),
            r@.state == DecoderState::NormalData,
            r@.payload == Seq::<u8>::empty(),
            r@.max == PAYLOAD_LIMIT as nat,
    {
        TelnetCodec::with_max_payload(PAYLOAD_LIMIT)
    }
}

} // verus!
