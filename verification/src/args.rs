use vstd::prelude::*;

use crate::bytebuf::buf_clear;
use crate::bytebuf::buf_put_u8;
use crate::bytebuf::buf_to_vec;
use crate::bytebuf::byte_content;

verus! {

/// A subnegotiation argument with no registered codec: the raw payload
/// bytes, already unescaped.
#[derive(Clone, Debug, PartialEq)]
pub enum TelnetArgument {
    Unknown(Vec<u8>),
}

/// A per-option subnegotiation payload codec: the extension point for
/// option-specific argument encodings.  Payload bytes are the pre-escape
/// form; the frame codec doubles any IAC on the wire.
pub trait Argument: Sized {
    /// The payload bytes this argument serializes to.
    spec fn spec_payload(&self) -> Seq<u8>;

    /// The encoded length of the argument.
    fn len(&self) -> (r: usize)
        requires
            self.spec_payload().len() <= usize::MAX,
        ensures
            r == self.spec_payload().len(),
    ;

    /// Append the argument's payload bytes to `dst`.
    fn encode(&self, dst: &mut bytes::BytesMut)
        requires
            byte_content(*old(dst)).len() + self.spec_payload().len() <= usize::MAX / 2,
        ensures
            byte_content(*final(dst)) == byte_content(*old(dst)) + self.spec_payload(),
    ;

    /// Read an argument back out of a payload buffer, consuming it: the
    /// value parsed serializes to exactly the bytes that were read.
    fn dencode(&self, src: &mut bytes::BytesMut) -> (r: Self)
        ensures
            r.spec_payload() == byte_content(*old(src)),
            byte_content(*final(src)) == Seq::<u8>::empty(),
    ;
}

impl Argument for TelnetArgument {
    open spec fn spec_payload(&self) -> Seq<u8> {
        match self {
            TelnetArgument::Unknown(payload) => payload@,
        }
    }

    fn len(&self) -> (r: usize) {
        match self {
            TelnetArgument::Unknown(payload) => payload.len(),
        }
    }

    #[verifier::loop_isolation(false)]
    fn encode(&self, dst: &mut bytes::BytesMut) {
        let ghost dst0 = byte_content(*old(dst));
        match self {
            TelnetArgument::Unknown(payload) => {
                let n = payload.len();
                let mut i: usize = 0;
                while i < n
                    invariant
                        i <= n,
                        byte_content(*dst) == dst0 + payload@.take(i as int),
                    decreases n - i,
                {
                    buf_put_u8(dst, payload[i]);
                    proof {
                        assert(byte_content(*dst) =~= dst0 + payload@.take(i + 1 as int));
                    }
                    i = i + 1;
                }
                proof {
                    assert(payload@.take(n as int) =~= payload@);
                }
            },
        }
    }

    /// The default argument codec treats the whole payload as opaque bytes.
    fn dencode(&self, src: &mut bytes::BytesMut) -> Self {
        let payload = buf_to_vec(src);
        buf_clear(src);
        TelnetArgument::Unknown(payload)
    }
}

} // verus!
