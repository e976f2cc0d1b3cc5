use vstd::prelude::*;

use crate::bytebuf::buf_put_u8;
use crate::bytebuf::byte_content;
use crate::consts::IAC;
use crate::consts::NUL;
use crate::state::ConfigurationError;

verus! {

/// MSSP variable marker
pub const VAR: u8 = 1;
/// MSSP value marker
pub const VAL: u8 = 2;

/// A byte string that can stand in an MSSP name or value: it holds none of
/// the bytes the protocol reserves.
pub open spec fn spec_mssp_clean(bytes: Seq<u8>) -> bool {
    forall|k: int|
        0 <= k < bytes.len() ==> bytes[k] != NUL && bytes[k] != IAC && bytes[k] != VAR && bytes[k] != VAL
}

/// The bytes the values of one entry encode to, from index `i` on: a value
/// marker and the value bytes, each.
pub open spec fn spec_mssp_values_encoding(values: Seq<Vec<u8>>, i: int) -> Seq<u8>
    decreases values.len() - i,
{
    if i < 0 || i >= values.len() {
        Seq::empty()
    } else {
        seq![VAL] + values[i]@ + spec_mssp_values_encoding(values, i + 1)
    }
}

/// The bytes the entries from index `i` on encode to: a variable marker,
/// the name, then the values.
pub open spec fn spec_mssp_encoding(entries: Seq<(Vec<u8>, Vec<Vec<u8>>)>, i: int) -> Seq<u8>
    decreases entries.len() - i,
{
    if i < 0 || i >= entries.len() {
        Seq::empty()
    } else {
        seq![VAR] + entries[i].0@ + spec_mssp_values_encoding(entries[i].1@, 0) + spec_mssp_encoding(
            entries,
            i + 1,
        )
    }
}

/// Mud Server Status: a list of named status variables, each with its
/// values.  Entries are kept in insertion order; names and values never
/// hold a reserved byte - `push` rejects them instead of corrupting the
/// encoding.
#[derive(Clone, Debug)]
pub struct MudServerStatus(Vec<(Vec<u8>, Vec<Vec<u8>>)>);

impl View for MudServerStatus {
    type V = Seq<(Vec<u8>, Vec<Vec<u8>>)>;

    closed spec fn view(&self) -> Seq<(Vec<u8>, Vec<Vec<u8>>)> {
        self.0@
    }
}

/// Whether some entry already carries this name.
pub open spec fn spec_mssp_has_key(entries: Seq<(Vec<u8>, Vec<Vec<u8>>)>, key: Seq<u8>) -> bool {
    exists|i: int| 0 <= i < entries.len() && #[trigger] entries[i].0@ == key
}

impl MudServerStatus {
    /// Every stored name and value is free of reserved bytes, and no name
    /// appears twice, as the original map-backed shape guaranteed.
    pub open spec fn wf(&self) -> bool {
        &&& forall|i: int|
            0 <= i < self@.len() ==> #[trigger] spec_mssp_clean(self@[i].0@) && forall|j: int|
                0 <= j < self@[i].1@.len() ==> spec_mssp_clean(#[trigger] self@[i].1@[j]@)
        &&& forall|i: int, j: int|
            #![trigger self@[i].0, self@[j].0]
            0 <= i < j < self@.len() ==> self@[i].0@ != self@[j].0@
    }

    /// Create a new, empty `MudServerStatus`.
    pub fn new() -> (r: MudServerStatus)
        ensures
            r.wf(),
            r@ == Seq::<(Vec<u8>, Vec<Vec<u8>>)>::empty(),
    {
        MudServerStatus(Vec::new())
    }

    /// Add one variable with its values.  An entry whose name or values
    /// hold a reserved byte (NUL, IAC, or an MSSP marker), or whose name
    /// is already present, is rejected whole and nothing changes.
    #[verifier::loop_isolation(false)]
    pub fn push(&mut self, key: Vec<u8>, values: Vec<Vec<u8>>) -> (r: Result<(), ConfigurationError>)
        requires
            old(self).wf(),
        ensures
            final(self).wf(),
            spec_mssp_clean(key@) && (forall|j: int| 0 <= j < values@.len() ==> spec_mssp_clean(
                #[trigger] values@[j]@,
            )) && !spec_mssp_has_key(old(self)@, key@) ==> final(self)@ == old(self)@.push((key, values))
                && r is Ok,
            !(spec_mssp_clean(key@) && (forall|j: int| 0 <= j < values@.len() ==> spec_mssp_clean(
                #[trigger] values@[j]@,
            )) && !spec_mssp_has_key(old(self)@, key@)) ==> final(self)@ == old(self)@ && r == Err::<
                (),
                ConfigurationError,
            >(ConfigurationError),
    {
        if !bytes_clean(&key) {
            return Err(ConfigurationError);
        }
        let mut j: usize = 0;
        while j < values.len()
            invariant
                j <= values@.len(),
                forall|t: int| 0 <= t < j ==> spec_mssp_clean(#[trigger] values@[t]@),
            decreases values@.len() - j,
        {
            if !bytes_clean(&values[j]) {
                return Err(ConfigurationError);
            }
            j = j + 1;
        }
        let n = self.0.len();
        let mut i: usize = 0;
        while i < n
            invariant
                i <= n,
                forall|t: int| 0 <= t < i ==> #[trigger] self@[t].0@ != key@,
            decreases n - i,
        {
            if bytes_equal(&self.0[i].0, &key) {
                return Err(ConfigurationError);
            }
            i = i + 1;
        }
        let ghost entry = (key, values);
        self.0.push((key, values));
        proof {
            assert forall|i: int| 0 <= i < self@.len() implies #[trigger] spec_mssp_clean(self@[i].0@)
                && forall|t: int| 0 <= t < self@[i].1@.len() ==> spec_mssp_clean(
                #[trigger] self@[i].1@[t]@,
            ) by {
                if i < old(self)@.len() {
                    assert(self@[i] == old(self)@[i]);
                } else {
                    assert(self@[i] == entry);
                }
            }
            assert forall|i: int, j: int|
                #![trigger self@[i].0, self@[j].0]
                0 <= i < j < self@.len() implies self@[i].0@ != self@[j].0@ by {
                assert(self@[i] == old(self)@[i]);
                if j < old(self)@.len() {
                    assert(self@[j] == old(self)@[j]);
                } else {
                    assert(self@[j] == entry);
                }
            }
        }
        Ok(())
    }

    /// The encoded length of the status table.
    #[verifier::loop_isolation(false)]
    pub fn len(&self) -> (r: usize)
        requires
            spec_mssp_encoding(self@, 0).len() <= usize::MAX,
        ensures
            r == spec_mssp_encoding(self@, 0).len(),
    {
        let n = self.0.len();
        let mut i: usize = n;
        let mut length: usize = 0;
        while i > 0
            invariant
                i <= n,
                n == self@.len(),
                length == spec_mssp_encoding(self@, i as int).len(),
                spec_mssp_encoding(self@, 0).len() <= usize::MAX,
            decreases i,
        {
            proof {
                lemma_mssp_encoding_mono(self@, 0, i - 1);
            }
            i = i - 1;
            let mut entry_len: usize = 1 + self.0[i].0.len();
            let m = self.0[i].1.len();
            let mut j: usize = m;
            proof {
                assert(spec_mssp_values_encoding(self.0[i as int].1@, m as int).len() == 0);
            }
            while j > 0
                invariant
                    j <= m,
                    entry_len == 1 + self.0[i as int].0@.len() + spec_mssp_values_encoding(
                        self.0[i as int].1@,
                        j as int,
                    ).len(),
                    spec_mssp_encoding(self@, 0).len() <= usize::MAX,
                    i < n,
                decreases j,
            {
                proof {
                    lemma_mssp_encoding_mono(self@, 0, i as int);
                    lemma_mssp_values_encoding_mono(self.0[i as int].1@, 0, j - 1);
                }
                j = j - 1;
                entry_len = entry_len + 1 + self.0[i].1[j].len();
            }
            length = length + entry_len;
        }
        length
    }

    /// Append the status table's encoding to `dst`.
    #[verifier::loop_isolation(false)]
    pub fn encode(&self, dst: &mut bytes::BytesMut)
        requires
            byte_content(*old(dst)).len() + spec_mssp_encoding(self@, 0).len() <= usize::MAX / 2,
        ensures
            byte_content(*final(dst)) == byte_content(*old(dst)) + spec_mssp_encoding(self@, 0),
    {
        let ghost dst0 = byte_content(*old(dst));
        let n = self.0.len();
        let mut i: usize = 0;
        while i < n
            invariant
                i <= n,
                dst0 + spec_mssp_encoding(self@, 0) == byte_content(*dst) + spec_mssp_encoding(
                    self@,
                    i as int,
                ),
            decreases n - i,
        {
            proof {
                lemma_mssp_encoding_mono(self@, 0, i as int);
            }
            buf_put_u8(dst, VAR);
            let key = &self.0[i].0;
            let key_len = key.len();
            let mut k: usize = 0;
            let ghost key_start = byte_content(*dst);
            while k < key_len
                invariant
                    k <= key_len,
                    byte_content(*dst) == key_start + key@.take(k as int),
                    key_start.len() + key@.len() <= usize::MAX / 2,
                decreases key_len - k,
            {
                buf_put_u8(dst, key[k]);
                proof {
                    assert(byte_content(*dst) =~= key_start + key@.take(k + 1 as int));
                }
                k = k + 1;
            }
            proof {
                assert(key@.take(key_len as int) =~= key@);
            }
            let values = &self.0[i].1;
            let m = values.len();
            let mut j: usize = 0;
            while j < m
                invariant
                    j <= m,
                    m == values@.len(),
                    dst0 + spec_mssp_encoding(self@, 0) == byte_content(*dst) + spec_mssp_values_encoding(
                        values@,
                        j as int,
                    ) + spec_mssp_encoding(self@, i + 1 as int),
                decreases m - j,
            {
                proof {
                    lemma_mssp_encoding_mono(self@, 0, i + 1 as int);
                    lemma_mssp_values_encoding_mono(values@, 0, j as int);
                    lemma_mssp_values_encoding_mono(values@, j as int, j + 1 as int);
                }
                buf_put_u8(dst, VAL);
                let value = &values[j];
                let value_len = value.len();
                let mut k: usize = 0;
                let ghost value_start = byte_content(*dst);
                while k < value_len
                    invariant
                        k <= value_len,
                        byte_content(*dst) == value_start + value@.take(k as int),
                        value_start.len() + value@.len() <= usize::MAX / 2,
                    decreases value_len - k,
                {
                    buf_put_u8(dst, value[k]);
                    proof {
                        assert(byte_content(*dst) =~= value_start + value@.take(k + 1 as int));
                    }
                    k = k + 1;
                }
                proof {
                    assert(value@.take(value_len as int) =~= value@);
                    assert(dst0 + spec_mssp_encoding(self@, 0) =~= byte_content(*dst)
                        + spec_mssp_values_encoding(values@, j + 1 as int) + spec_mssp_encoding(
                        self@,
                        i + 1 as int,
                    ));
                }
                j = j + 1;
            }
            proof {
                assert(dst0 + spec_mssp_encoding(self@, 0) =~= byte_content(*dst) + spec_mssp_encoding(
                    self@,
                    i + 1 as int,
                ));
            }
            i = i + 1;
        }
        proof {
            assert(byte_content(*dst) =~= dst0 + spec_mssp_encoding(self@, 0));
        }
    }
}

/// Whether two byte strings hold the same bytes.
fn bytes_equal(a: &Vec<u8>, b: &Vec<u8>) -> (r: bool)
    ensures
        r == (a@ == b@),
{
    if a.len() != b.len() {
        return false;
    }
    let n = a.len();
    let mut i: usize = 0;
    while i < n
        invariant
            i <= n,
            n == a@.len(),
            n == b@.len(),
            forall|k: int| 0 <= k < i ==> a@[k] == b@[k],
        decreases n - i,
    {
        if a[i] != b[i] {
            return false;
        }
        i = i + 1;
    }
    proof {
        assert(a@ =~= b@);
    }
    true
}

/// Whether a byte string is free of the reserved MSSP bytes.
fn bytes_clean(bytes: &Vec<u8>) -> (r: bool)
    ensures
        r == spec_mssp_clean(bytes@),
{
    let n = bytes.len();
    let mut i: usize = 0;
    while i < n
        invariant
            i <= n,
            n == bytes@.len(),
            forall|k: int| 0 <= k < i ==> bytes@[k] != NUL && bytes@[k] != IAC && bytes@[k] != VAR
                && bytes@[k] != VAL,
        decreases n - i,
    {
        let b = bytes[i];
        if b == NUL || b == IAC || b == VAR || b == VAL {
            return false;
        }
        i = i + 1;
    }
    true
}

/// Later entry suffixes encode to no more bytes than earlier ones.
proof fn lemma_mssp_encoding_mono(entries: Seq<(Vec<u8>, Vec<Vec<u8>>)>, i: int, j: int)
    requires
        0 <= i <= j,
    ensures
        spec_mssp_encoding(entries, j).len() <= spec_mssp_encoding(entries, i).len(),
    decreases j - i,
{
    if i < j {
        lemma_mssp_encoding_mono(entries, i + 1, j);
    }
}

/// Later value suffixes encode to no more bytes than earlier ones.
proof fn lemma_mssp_values_encoding_mono(values: Seq<Vec<u8>>, i: int, j: int)
    requires
        0 <= i <= j,
    ensures
        spec_mssp_values_encoding(values, j).len() <= spec_mssp_values_encoding(values, i).len(),
    decreases j - i,
{
    if i < j {
        lemma_mssp_values_encoding_mono(values, i + 1, j);
    }
}

} // verus!
