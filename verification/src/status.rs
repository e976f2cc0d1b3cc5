use vstd::prelude::*;

use crate::action::spec_action_code;
use crate::action::TelnetAction;
use crate::bytebuf::buf_put_u8;
use crate::bytebuf::byte_content;
use crate::option::spec_option_code;
use crate::option::TelnetOption;

verus! {

/// Status subnegotiation IS marker
pub const IS: u8 = 0;
/// Status subnegotiation SEND marker
pub const SEND: u8 = 1;

/// The payload of a Status IS reply: for each option, the action taken on
/// each of its two directions.
#[derive(Clone, Debug, PartialEq)]
pub struct TelnetOptionStatus(pub Vec<(TelnetOption, (TelnetAction, TelnetAction))>);

/// The bytes the status entries from index `i` on encode to: each entry is
/// the first action and the option, then the second action and the option.
pub open spec fn spec_status_entries_encoding(
    entries: Seq<(TelnetOption, (TelnetAction, TelnetAction))>,
    i: int,
) -> Seq<u8>
    decreases entries.len() - i,
{
    if i < 0 || i >= entries.len() {
        Seq::empty()
    } else {
        seq![
            spec_action_code(entries[i].1.0),
            spec_option_code(entries[i].0),
            spec_action_code(entries[i].1.1),
            spec_option_code(entries[i].0),
        ] + spec_status_entries_encoding(entries, i + 1)
    }
}

/// The whole Status IS payload: the IS marker, then the entries.
pub open spec fn spec_status_encoding(entries: Seq<(TelnetOption, (TelnetAction, TelnetAction))>) -> Seq<
    u8,
> {
    seq![IS] + spec_status_entries_encoding(entries, 0)
}

/// Each entry takes four bytes after the IS marker.
pub proof fn lemma_status_entries_encoding_len(
    entries: Seq<(TelnetOption, (TelnetAction, TelnetAction))>,
    i: int,
)
    requires
        0 <= i <= entries.len(),
    ensures
        spec_status_entries_encoding(entries, i).len() == 4 * (entries.len() - i),
    decreases entries.len() - i,
{
    if i < entries.len() {
        lemma_status_entries_encoding_len(entries, i + 1);
    }
}

impl TelnetOptionStatus {
    /// A status report over the given entries, in order.
    pub fn new(entries: Vec<(TelnetOption, (TelnetAction, TelnetAction))>) -> (r: TelnetOptionStatus)
        ensures
            r == TelnetOptionStatus(entries),
    {
        TelnetOptionStatus(entries)
    }

    /// The encoded length of the status payload: the IS marker and four
    /// bytes per entry.
    pub fn len(&self) -> (r: usize)
        requires
            1 + 4 * self.0@.len() <= usize::MAX,
        ensures
            r == 1 + 4 * self.0@.len(),
    {
        1 + self.0.len() * 4
    }

    /// Append the status payload to `dst`.
    #[verifier::loop_isolation(false)]
    pub fn encode(&self, dst: &mut bytes::BytesMut)
        requires
            byte_content(*old(dst)).len() + 1 + 4 * self.0@.len() <= usize::MAX / 2,
        ensures
            byte_content(*final(dst)) == byte_content(*old(dst)) + spec_status_encoding(self.0@),
    {
        let ghost dst0 = byte_content(*old(dst));
        buf_put_u8(dst, IS);
        let n = self.0.len();
        let mut i: usize = 0;
        while i < n
            invariant
                i <= n,
                dst0 + seq![IS] + spec_status_entries_encoding(self.0@, 0) == byte_content(*dst)
                    + spec_status_entries_encoding(self.0@, i as int),
            decreases n - i,
        {
            proof {
                lemma_status_entries_encoding_len(self.0@, 0);
                lemma_status_entries_encoding_len(self.0@, i as int);
            }
            let (option, actions) = self.0[i];
            buf_put_u8(dst, u8::from(actions.0));
            buf_put_u8(dst, u8::from(option));
            buf_put_u8(dst, u8::from(actions.1));
            buf_put_u8(dst, u8::from(option));
            proof {
                assert(dst0 + seq![IS] + spec_status_entries_encoding(self.0@, 0) =~= byte_content(*dst)
                    + spec_status_entries_encoding(self.0@, i + 1 as int));
            }
            i = i + 1;
        }
        proof {
            assert(byte_content(*dst) =~= dst0 + spec_status_encoding(self.0@));
        }
    }
}

} // verus!
