use vstd::prelude::*;

use crate::codec::lemma_escape_len;
use crate::codec::spec_decode;
use crate::codec::spec_encode;
use crate::codec::spec_escape;
use crate::codec::spec_step;
use crate::codec::DecodeRun;
use crate::codec::DecoderState;
use crate::codec::StepOut;
use crate::consts::IAC;
use crate::consts::SB;
use crate::consts::SE;
use crate::frame::FrameModel;

verus! {

/// The decoder run over a whole input: the state and payload it ends in and
/// every frame or error it produced along the way, in order.
pub struct AllRun {
    pub state: DecoderState,
    pub payload: Seq<u8>,
    pub events: Seq<StepOut>,
}

/// Run the decoder over all of `input`, collecting every emitted frame and
/// every error.  This is what repeated calls of `decode` on one buffer
/// produce in total.
pub open spec fn spec_decode_all(max: nat, s: DecoderState, payload: Seq<u8>, input: Seq<u8>) -> AllRun
    decreases input.len(),
{
    if input.len() == 0 {
        AllRun { state: s, payload, events: Seq::empty() }
    } else {
        let st = spec_step(max, s, payload, input[0]);
        let rest = spec_decode_all(max, st.state, st.payload, input.skip(1));
        match st.out {
            StepOut::Pending => rest,
            _ => AllRun { state: rest.state, payload: rest.payload, events: seq![st.out] + rest.events },
        }
    }
}

/// A decode run never consumes more bytes than the input holds, and always
/// consumes at least one when it produced a frame or an error.
pub proof fn lemma_decode_consumed_bounds(max: nat, s: DecoderState, payload: Seq<u8>, input: Seq<u8>)
    ensures
        0 <= spec_decode(max, s, payload, input).consumed <= input.len(),
        !(spec_decode(max, s, payload, input).out is Pending) ==> spec_decode(max, s, payload, input).consumed
            >= 1,
        spec_decode(max, s, payload, input).out is Pending ==> spec_decode(max, s, payload, input).consumed
            == input.len(),
    decreases input.len(),
{
    if input.len() > 0 {
        let st = spec_step(max, s, payload, input[0]);
        match st.out {
            StepOut::Pending => {
                lemma_decode_consumed_bounds(max, st.state, st.payload, input.skip(1));
            },
            _ => {},
        }
    }
}

/// One call of `decode` takes exactly the first event of the whole run: the
/// events of the run are the first result followed by the events of the run
/// on what that call left in the buffer.
pub proof fn lemma_decode_then_all(max: nat, s: DecoderState, payload: Seq<u8>, input: Seq<u8>)
    ensures
        ({
            let run = spec_decode(max, s, payload, input);
            let rest = spec_decode_all(max, run.state, run.payload, input.skip(run.consumed));
            let prefix = if run.out is Pending {
                Seq::<StepOut>::empty()
            } else {
                seq![run.out]
            };
            spec_decode_all(max, s, payload, input) == (AllRun {
                state: rest.state,
                payload: rest.payload,
                events: prefix + rest.events,
            })
        }),
    decreases input.len(),
{
    let run = spec_decode(max, s, payload, input);
    if input.len() == 0 {
        assert(input.skip(0) =~= input);
        let rest = spec_decode_all(max, run.state, run.payload, input.skip(run.consumed));
        assert(Seq::<StepOut>::empty() + rest.events =~= rest.events);
    } else {
        let st = spec_step(max, s, payload, input[0]);
        match st.out {
            StepOut::Pending => {
                let inner = spec_decode(max, st.state, st.payload, input.skip(1));
                lemma_decode_consumed_bounds(max, st.state, st.payload, input.skip(1));
                lemma_decode_then_all(max, st.state, st.payload, input.skip(1));
                assert(input.skip(1).skip(inner.consumed) =~= input.skip(run.consumed));
            },
            _ => {
                assert(run.consumed == 1);
            },
        }
    }
}

/// Decoder resumability: feeding `a` and then `b` produces the same events,
/// and leaves the decoder in the same place, as feeding `a + b` at once.
pub proof fn lemma_decoder_resumable(max: nat, s: DecoderState, payload: Seq<u8>, a: Seq<u8>, b: Seq<u8>)
    ensures
        ({
            let first = spec_decode_all(max, s, payload, a);
            let second = spec_decode_all(max, first.state, first.payload, b);
            spec_decode_all(max, s, payload, a + b) == (AllRun {
                state: second.state,
                payload: second.payload,
                events: first.events + second.events,
            })
        }),
    decreases a.len(),
{
    let first = spec_decode_all(max, s, payload, a);
    let second = spec_decode_all(max, first.state, first.payload, b);
    if a.len() == 0 {
        assert(a + b =~= b);
        assert(first.events + second.events =~= second.events);
    } else {
        let st = spec_step(max, s, payload, a[0]);
        assert((a + b)[0] == a[0]);
        assert((a + b).skip(1) =~= a.skip(1) + b);
        lemma_decoder_resumable(max, st.state, st.payload, a.skip(1), b);
        match st.out {
            StepOut::Pending => {},
            _ => {
                let tail = spec_decode_all(max, st.state, st.payload, a.skip(1));
                assert(seq![st.out] + (tail.events + second.events) =~= (seq![st.out] + tail.events)
                    + second.events);
            },
        }
    }
}

/// Decoding an escaped subnegotiation payload followed by `IAC SE` from
/// within a subnegotiation emits the whole collected payload and returns the
/// decoder to normal data.
proof fn lemma_decode_escaped_payload(max: nat, opt: u8, acc: Seq<u8>, rest: Seq<u8>)
    requires
        acc.len() + rest.len() <= max,
    ensures
        spec_decode(max, DecoderState::SubnegotiateArgument(opt), acc, spec_escape(rest) + seq![IAC, SE])
            == (DecodeRun {
            consumed: spec_escape(rest).len() + 2int,
            state: DecoderState::NormalData,
            payload: Seq::empty(),
            out: StepOut::Emit(FrameModel::Subnegotiate(opt, acc + rest)),
        }),
    decreases rest.len(),
{
    reveal_with_fuel(spec_decode, 5);
    let input = spec_escape(rest) + seq![IAC, SE];
    if rest.len() == 0 {
        assert(spec_escape(rest) == Seq::<u8>::empty());
        assert(input =~= seq![IAC, SE]);
        assert(input[0] == IAC);
        assert(input.skip(1) =~= seq![SE]);
        assert(acc + rest =~= acc);
    } else {
        let r0 = rest[0];
        let rest1 = rest.skip(1);
        let chunk = if r0 == IAC {
            seq![IAC, IAC]
        } else {
            seq![r0]
        };
        assert(spec_escape(rest) == chunk + spec_escape(rest1));
        lemma_escape_len(rest1);
        if r0 == IAC {
            assert(input[0] == IAC);
            assert(input[1] == IAC);
            assert(acc.len() < max);
            assert(input.skip(1).skip(1) =~= spec_escape(rest1) + seq![IAC, SE]);
            lemma_decode_escaped_payload(max, opt, acc.push(IAC), rest1);
            assert(acc.push(IAC) + rest1 =~= acc + rest);
        } else {
            assert(input[0] == r0);
            assert(acc.len() < max);
            assert(input.skip(1) =~= spec_escape(rest1) + seq![IAC, SE]);
            lemma_decode_escaped_payload(max, opt, acc.push(r0), rest1);
            assert(acc.push(r0) + rest1 =~= acc + rest);
        }
    }
}

/// Codec round trip: decoding the encoding of any frame, from a fresh
/// decoder, consumes the whole encoding and yields exactly that frame,
/// leaving the decoder ready for more.  A subnegotiation payload must fit
/// the configured bound; a longer one is rejected as too long.
pub proof fn lemma_codec_round_trip(max: nat, f: FrameModel)
    requires
        f matches FrameModel::Subnegotiate(opt, payload) ==> payload.len() <= max,
    ensures
        ({
            let enc = spec_encode(f);
            spec_decode(max, DecoderState::NormalData, Seq::empty(), enc) == (DecodeRun {
                consumed: enc.len() as int,
                state: DecoderState::NormalData,
                payload: Seq::empty(),
                out: StepOut::Emit(f),
            })
        }),
{
    reveal_with_fuel(spec_decode, 5);
    let enc = spec_encode(f);
    let empty = Seq::<u8>::empty();
    match f {
        FrameModel::Data(b) => {
            if b == IAC {
                assert(enc =~= seq![IAC, IAC]);
                assert(enc.skip(1) =~= seq![IAC]);
            } else {
                assert(enc =~= seq![b]);
            }
        },
        FrameModel::Subnegotiate(opt, payload) => {
            assert(enc =~= seq![IAC, SB, opt] + (spec_escape(payload) + seq![IAC, SE]));
            assert(enc[0] == IAC);
            assert(enc[1] == SB);
            assert(enc[2] == opt);
            assert(enc.skip(1).skip(1).skip(1) =~= spec_escape(payload) + seq![IAC, SE]);
            lemma_decode_escaped_payload(max, opt, empty, payload);
            assert(empty + payload =~= payload);
            lemma_escape_len(payload);
        },
        FrameModel::Do(opt) => {
            assert(enc.skip(1) =~= seq![crate::consts::DO, opt]);
            assert(enc.skip(1).skip(1) =~= seq![opt]);
        },
        FrameModel::Dont(opt) => {
            assert(enc.skip(1) =~= seq![crate::consts::DONT, opt]);
            assert(enc.skip(1).skip(1) =~= seq![opt]);
        },
        FrameModel::Will(opt) => {
            assert(enc.skip(1) =~= seq![crate::consts::WILL, opt]);
            assert(enc.skip(1).skip(1) =~= seq![opt]);
        },
        FrameModel::Wont(opt) => {
            assert(enc.skip(1) =~= seq![crate::consts::WONT, opt]);
            assert(enc.skip(1).skip(1) =~= seq![opt]);
        },
        _ => {
            assert(enc.len() == 2);
            assert(enc.skip(1) =~= seq![enc[1]]);
        },
    }
}

/// IAC escape: a subnegotiation whose payload holds the escape byte - or
/// any other payload that fits the bound - comes back bit-exact from its
/// own encoding.
pub proof fn lemma_iac_escape_round_trip(max: nat, opt: u8, payload: Seq<u8>)
    requires
        payload.len() <= max,
    ensures
        spec_decode(
            max,
            DecoderState::NormalData,
            Seq::empty(),
            spec_encode(FrameModel::Subnegotiate(opt, payload)),
        ).out == StepOut::Emit(FrameModel::Subnegotiate(opt, payload)),
{
    lemma_codec_round_trip(max, FrameModel::Subnegotiate(opt, payload));
}

/// `Data(255)` encodes as `IAC IAC` and nothing else does: the encoder is a
/// function, and this is its value on the escape byte.
pub proof fn lemma_data_iac_encoding()
    ensures
        spec_encode(FrameModel::Data(IAC)) == seq![IAC, IAC],
{
}

} // verus!
