use vstd::prelude::*;

use crate::bytebuf::buf_put_u8;
use crate::bytebuf::byte_content;

verus! {

/// NAOCRD data receiver marker
pub const DR: u8 = 0;
/// NAOCRD data sender marker
pub const DS: u8 = 1;

/// Negotiate About Output Carriage-Return Disposition: which side the
/// disposition speaks about, and the disposition value.
#[derive(Clone, Copy, Debug, Eq, PartialEq, Structural)]
pub enum NAOCRD {
    Sender(u8),
    Receiver(u8),
    Unknown(u8, u8),
}

/// The two payload bytes a disposition encodes to: the side marker, then
/// the disposition value.
pub open spec fn spec_naocrd_encoding(v: NAOCRD) -> Seq<u8> {
    match v {
        NAOCRD::Sender(value) => seq![DR, value],
        NAOCRD::Receiver(value) => seq![DS, value],
        NAOCRD::Unknown(side, value) => seq![side, value],
    }
}

impl NAOCRD {
    /// The encoded length of a disposition (always two bytes).
    pub fn len(&self) -> (r: usize)
        ensures
            r == 2,
    {
        2
    }

    /// Append the disposition's two payload bytes to `dst`.
    pub fn encode(&self, dst: &mut bytes::BytesMut)
        requires
            byte_content(*old(dst)).len() + 2 <= usize::MAX / 2,
        ensures
            byte_content(*final(dst)) == byte_content(*old(dst)) + spec_naocrd_encoding(*self),
    {
        let ghost dst0 = byte_content(*old(dst));
        match *self {
            NAOCRD::Sender(value) => {
                buf_put_u8(dst, DR);
                buf_put_u8(dst, value);
            },
            NAOCRD::Receiver(value) => {
                buf_put_u8(dst, DS);
                buf_put_u8(dst, value);
            },
            NAOCRD::Unknown(side, value) => {
                buf_put_u8(dst, side);
                buf_put_u8(dst, value);
            },
        }
        proof {
            assert(byte_content(*dst) =~= dst0 + spec_naocrd_encoding(*self));
        }
    }
}

} // verus!
