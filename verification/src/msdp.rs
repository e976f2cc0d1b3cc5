use vstd::prelude::*;

use crate::bytebuf::buf_put_u8;
use crate::bytebuf::byte_content;
use vstd::string::StringSliceAdditionalSpecFns;
use vstd::string::StrSliceExecFns;

verus! {

/// MSDP variable marker
pub const VAR: u8 = 1;
/// MSDP value marker
pub const VAL: u8 = 2;
/// MSDP table open marker
pub const TABLE_OPEN: u8 = 3;
/// MSDP table close marker
pub const TABLE_CLOSE: u8 = 4;
/// MSDP array open marker
pub const ARRAY_OPEN: u8 = 5;
/// MSDP array close marker
pub const ARRAY_CLOSE: u8 = 6;

/// One Mud Server Data Protocol value: a byte string, an array of values,
/// or a table of named values.  Names and texts are byte strings on the
/// wire, so they are held as bytes.
#[derive(Debug)]
pub enum MudServerDataValue {
    Text(Vec<u8>),
    Array(Vec<MudServerDataValue>),
    Table(Vec<(Vec<u8>, MudServerDataValue)>),
}

/// `MudServerData` contains data about the Mud: a table of named values.
#[derive(Debug)]
pub struct MudServerData(pub Vec<(Vec<u8>, MudServerDataValue)>);

/// The encoded length of one value: its text, or its items between the
/// open and close markers.
pub open spec fn spec_value_len(v: MudServerDataValue) -> nat
    decreases v,
{
    match v {
        MudServerDataValue::Text(bytes) => bytes@.len(),
        MudServerDataValue::Array(items) => 2 + spec_array_len(items@, 0),
        MudServerDataValue::Table(entries) => 2 + spec_table_len(entries@, 0),
    }
}

/// The encoded length of the array items from index `i` on: a value marker
/// and the value, each.
pub open spec fn spec_array_len(items: Seq<MudServerDataValue>, i: int) -> nat
    decreases items, items.len() - i,
{
    if i < 0 || i >= items.len() {
        0
    } else {
        1 + spec_value_len(items[i]) + spec_array_len(items, i + 1)
    }
}

/// The encoded length of the table entries from index `i` on: a variable
/// marker, the name, a value marker and the value, each.
pub open spec fn spec_table_len(entries: Seq<(Vec<u8>, MudServerDataValue)>, i: int) -> nat
    decreases entries, entries.len() - i,
{
    if i < 0 || i >= entries.len() {
        0
    } else {
        2 + entries[i].0@.len() + spec_value_len(entries[i].1) + spec_table_len(entries, i + 1)
    }
}

/// The bytes one value encodes to.
pub open spec fn spec_value_encoding(v: MudServerDataValue) -> Seq<u8>
    decreases v,
{
    match v {
        MudServerDataValue::Text(bytes) => bytes@,
        MudServerDataValue::Array(items) => seq![ARRAY_OPEN] + spec_array_encoding(items@, 0) + seq![
            ARRAY_CLOSE,
        ],
        MudServerDataValue::Table(entries) => seq![TABLE_OPEN] + spec_table_encoding(entries@, 0) + seq![
            TABLE_CLOSE,
        ],
    }
}

/// The bytes the array items from index `i` on encode to.
pub open spec fn spec_array_encoding(items: Seq<MudServerDataValue>, i: int) -> Seq<u8>
    decreases items, items.len() - i,
{
    if i < 0 || i >= items.len() {
        Seq::empty()
    } else {
        seq![VAL] + spec_value_encoding(items[i]) + spec_array_encoding(items, i + 1)
    }
}

/// The bytes the table entries from index `i` on encode to.
pub open spec fn spec_table_encoding(entries: Seq<(Vec<u8>, MudServerDataValue)>, i: int) -> Seq<u8>
    decreases entries, entries.len() - i,
{
    if i < 0 || i >= entries.len() {
        Seq::empty()
    } else {
        seq![VAR] + entries[i].0@ + seq![VAL] + spec_value_encoding(entries[i].1) + spec_table_encoding(
            entries,
            i + 1,
        )
    }
}

/// The shape a name-to-value table must keep: no name appears twice.
/// Entries stay in insertion order.
pub open spec fn spec_msdp_keys_unique(entries: Seq<(Vec<u8>, MudServerDataValue)>) -> bool {
    forall|i: int, j: int|
        #![trigger entries[i].0, entries[j].0]
        0 <= i < j < entries.len() ==> entries[i].0@ != entries[j].0@
}

/// A well-formed value: every table inside it, at any depth, has distinct
/// names.
pub open spec fn spec_value_wf(v: MudServerDataValue) -> bool
    decreases v,
{
    match v {
        MudServerDataValue::Text(_) => true,
        MudServerDataValue::Array(items) => spec_array_wf(items@, 0),
        MudServerDataValue::Table(entries) => spec_msdp_keys_unique(entries@) && spec_table_wf(entries@, 0),
    }
}

/// All array items from index `i` on are well-formed.
pub open spec fn spec_array_wf(items: Seq<MudServerDataValue>, i: int) -> bool
    decreases items, items.len() - i,
{
    if i < 0 || i >= items.len() {
        true
    } else {
        spec_value_wf(items[i]) && spec_array_wf(items, i + 1)
    }
}

/// All table values from index `i` on are well-formed.
pub open spec fn spec_table_wf(entries: Seq<(Vec<u8>, MudServerDataValue)>, i: int) -> bool
    decreases entries, entries.len() - i,
{
    if i < 0 || i >= entries.len() {
        true
    } else {
        spec_value_wf(entries[i].1) && spec_table_wf(entries, i + 1)
    }
}

/// A value's encoding is exactly as long as its encoded length says.
pub proof fn lemma_value_encoding_len(v: MudServerDataValue)
    ensures
        spec_value_encoding(v).len() == spec_value_len(v),
    decreases v,
{
    match v {
        MudServerDataValue::Text(_) => {},
        MudServerDataValue::Array(items) => {
            lemma_array_encoding_len(items@, 0);
        },
        MudServerDataValue::Table(entries) => {
            lemma_table_encoding_len(entries@, 0);
        },
    }
}

/// The array items' encoding is exactly as long as their encoded length.
pub proof fn lemma_array_encoding_len(items: Seq<MudServerDataValue>, i: int)
    ensures
        spec_array_encoding(items, i).len() == spec_array_len(items, i),
    decreases items, items.len() - i,
{
    if 0 <= i < items.len() {
        lemma_value_encoding_len(items[i]);
        lemma_array_encoding_len(items, i + 1);
    }
}

/// The table entries' encoding is exactly as long as their encoded length.
pub proof fn lemma_table_encoding_len(entries: Seq<(Vec<u8>, MudServerDataValue)>, i: int)
    ensures
        spec_table_encoding(entries, i).len() == spec_table_len(entries, i),
    decreases entries, entries.len() - i,
{
    if 0 <= i < entries.len() {
        lemma_value_encoding_len(entries[i].1);
        lemma_table_encoding_len(entries, i + 1);
    }
}

/// Later suffixes of an array encode to no more bytes than earlier ones.
proof fn lemma_array_len_mono(items: Seq<MudServerDataValue>, i: int, j: int)
    requires
        0 <= i <= j,
    ensures
        spec_array_len(items, j) <= spec_array_len(items, i),
    decreases j - i,
{
    if i < j {
        lemma_array_len_mono(items, i + 1, j);
    }
}

/// Later suffixes of a table encode to no more bytes than earlier ones.
proof fn lemma_table_len_mono(entries: Seq<(Vec<u8>, MudServerDataValue)>, i: int, j: int)
    requires
        0 <= i <= j,
    ensures
        spec_table_len(entries, j) <= spec_table_len(entries, i),
    decreases j - i,
{
    if i < j {
        lemma_table_len_mono(entries, i + 1, j);
    }
}

impl MudServerDataValue {
    /// Every table inside this value has distinct names, as the original
    /// map-backed table shape guaranteed.
    pub open spec fn wf(&self) -> bool {
        spec_value_wf(*self)
    }

    /// A text value holding the bytes of `string`.
    pub fn string(string: &str) -> (r: MudServerDataValue)
        ensures
            r matches MudServerDataValue::Text(bytes) && bytes@ == string.spec_bytes(),
            r.wf(),
    {
        MudServerDataValue::Text(string.as_bytes_vec())
    }

    /// An array value of well-formed items.
    pub fn array(array: Vec<MudServerDataValue>) -> (r: MudServerDataValue)
        requires
            spec_array_wf(array@, 0),
        ensures
            r == MudServerDataValue::Array(array),
            r.wf(),
    {
        MudServerDataValue::Array(array)
    }

    /// A table value over distinct names and well-formed values.
    pub fn table(table: Vec<(Vec<u8>, MudServerDataValue)>) -> (r: MudServerDataValue)
        requires
            spec_msdp_keys_unique(table@),
            spec_table_wf(table@, 0),
        ensures
            r == MudServerDataValue::Table(table),
            r.wf(),
    {
        MudServerDataValue::Table(table)
    }

    /// The encoded length of this value.
    #[verifier::loop_isolation(false)]
    pub fn len(&self) -> (r: usize)
        requires
            spec_value_len(*self) <= usize::MAX,
        ensures
            r == spec_value_len(*self),
        decreases *self,
    {
        match self {
            MudServerDataValue::Text(bytes) => bytes.len(),
            MudServerDataValue::Array(items) => {
                let n = items.len();
                let mut i: usize = n;
                let mut length: usize = 0;
                while i > 0
                    invariant
                        i <= n,
                        n == items@.len(),
                        length == spec_array_len(items@, i as int),
                        spec_value_len(MudServerDataValue::Array(*items)) <= usize::MAX,
                    decreases i,
                {
                    proof {
                        lemma_array_len_mono(items@, 0, i - 1);
                    }
                    i = i - 1;
                    let item_len = items[i].len();
                    length = length + 1 + item_len;
                }
                2 + length
            },
            MudServerDataValue::Table(entries) => {
                let n = entries.len();
                let mut i: usize = n;
                let mut length: usize = 0;
                while i > 0
                    invariant
                        i <= n,
                        n == entries@.len(),
                        length == spec_table_len(entries@, i as int),
                        spec_value_len(MudServerDataValue::Table(*entries)) <= usize::MAX,
                    decreases i,
                {
                    proof {
                        lemma_table_len_mono(entries@, 0, i - 1);
                    }
                    i = i - 1;
                    let value_len = entries[i].1.len();
                    length = length + 2 + entries[i].0.len() + value_len;
                }
                2 + length
            },
        }
    }

    /// Append this value's encoding to `dst`.
    #[verifier::loop_isolation(false)]
    pub fn encode(&self, dst: &mut bytes::BytesMut)
        requires
            byte_content(*old(dst)).len() + spec_value_encoding(*self).len() <= usize::MAX / 2,
        ensures
            byte_content(*final(dst)) == byte_content(*old(dst)) + spec_value_encoding(*self),
        decreases *self,
    {
        let ghost dst0 = byte_content(*old(dst));
        match self {
            MudServerDataValue::Text(bytes) => {
                let n = bytes.len();
                let mut i: usize = 0;
                while i < n
                    invariant
                        i <= n,
                        n == bytes@.len(),
                        dst0.len() + bytes@.len() <= usize::MAX / 2,
                        byte_content(*dst) == dst0 + bytes@.take(i as int),
                    decreases n - i,
                {
                    buf_put_u8(dst, bytes[i]);
                    proof {
                        assert(byte_content(*dst) =~= dst0 + bytes@.take(i + 1 as int));
                    }
                    i = i + 1;
                }
                proof {
                    assert(bytes@.take(n as int) =~= bytes@);
                }
            },
            MudServerDataValue::Array(items) => {
                proof {
                    lemma_array_encoding_len(items@, 0);
                }
                buf_put_u8(dst, ARRAY_OPEN);
                let n = items.len();
                let mut i: usize = 0;
                while i < n
                    invariant
                        i <= n,
                        n == items@.len(),
                        dst0.len() + spec_value_encoding(MudServerDataValue::Array(*items)).len()
                            <= usize::MAX / 2,
                        dst0 + seq![ARRAY_OPEN] + spec_array_encoding(items@, 0) == byte_content(*dst)
                            + spec_array_encoding(items@, i as int),
                    decreases n - i,
                {
                    proof {
                        lemma_array_encoding_len(items@, 0);
                        lemma_value_encoding_len(items@[i as int]);
                        lemma_array_encoding_len(items@, i as int);
                        lemma_array_len_mono(items@, 0, i as int);
                    }
                    buf_put_u8(dst, VAL);
                    items[i].encode(dst);
                    proof {
                        assert(dst0 + seq![ARRAY_OPEN] + spec_array_encoding(items@, 0) =~= byte_content(
                            *dst,
                        ) + spec_array_encoding(items@, i + 1 as int));
                    }
                    i = i + 1;
                }
                buf_put_u8(dst, ARRAY_CLOSE);
                proof {
                    assert(byte_content(*dst) =~= dst0 + spec_value_encoding(*self));
                }
            },
            MudServerDataValue::Table(entries) => {
                proof {
                    lemma_table_encoding_len(entries@, 0);
                }
                buf_put_u8(dst, TABLE_OPEN);
                let n = entries.len();
                let mut i: usize = 0;
                while i < n
                    invariant
                        i <= n,
                        n == entries@.len(),
                        dst0.len() + spec_value_encoding(MudServerDataValue::Table(*entries)).len()
                            <= usize::MAX / 2,
                        dst0 + seq![TABLE_OPEN] + spec_table_encoding(entries@, 0) == byte_content(*dst)
                            + spec_table_encoding(entries@, i as int),
                    decreases n - i,
                {
                    proof {
                        lemma_table_encoding_len(entries@, 0);
                        lemma_value_encoding_len(entries@[i as int].1);
                        lemma_table_encoding_len(entries@, i as int);
                        lemma_table_len_mono(entries@, 0, i as int);
                    }
                    buf_put_u8(dst, VAR);
                    let key = &entries[i].0;
                    let key_len = key.len();
                    let mut k: usize = 0;
                    let ghost key_start = byte_content(*dst);
                    while k < key_len
                        invariant
                            k <= key_len,
                            key_len == key@.len(),
                            key_start.len() + key@.len() <= usize::MAX / 2,
                            byte_content(*dst) == key_start + key@.take(k as int),
                        decreases key_len - k,
                    {
                        buf_put_u8(dst, key[k]);
                        proof {
                            assert(byte_content(*dst) =~= key_start + key@.take(k + 1 as int));
                        }
                        k = k + 1;
                    }
                    proof {
                        assert(key@.take(key_len as int) =~= key@);
                    }
                    buf_put_u8(dst, VAL);
                    entries[i].1.encode(dst);
                    proof {
                        assert(dst0 + seq![TABLE_OPEN] + spec_table_encoding(entries@, 0) =~= byte_content(
                            *dst,
                        ) + spec_table_encoding(entries@, i + 1 as int));
                    }
                    i = i + 1;
                }
                buf_put_u8(dst, TABLE_CLOSE);
                proof {
                    assert(byte_content(*dst) =~= dst0 + spec_value_encoding(*self));
                }
            },
        }
    }
}

impl MudServerData {
    /// The names are distinct and every value is well-formed, as the
    /// original map-backed table shape guaranteed.
    pub open spec fn wf(&self) -> bool {
        spec_msdp_keys_unique(self.0@) && spec_table_wf(self.0@, 0)
    }

    /// Create a new `MudServerData` table over distinct names and
    /// well-formed values.
    pub fn new(table: Vec<(Vec<u8>, MudServerDataValue)>) -> (r: MudServerData)
        requires
            spec_msdp_keys_unique(table@),
            spec_table_wf(table@, 0),
        ensures
            r == MudServerData(table),
            r.wf(),
    {
        MudServerData(table)
    }

    /// The encoded length of the table.
    #[verifier::loop_isolation(false)]
    pub fn len(&self) -> (r: usize)
        requires
            spec_table_len(self.0@, 0) <= usize::MAX,
        ensures
            r == spec_table_len(self.0@, 0),
    {
        let n = self.0.len();
        let mut i: usize = n;
        let mut length: usize = 0;
        while i > 0
            invariant
                i <= n,
                n == self.0@.len(),
                length == spec_table_len(self.0@, i as int),
                spec_table_len(self.0@, 0) <= usize::MAX,
            decreases i,
        {
            proof {
                lemma_table_len_mono(self.0@, 0, i - 1);
            }
            i = i - 1;
            let value_len = self.0[i].1.len();
            length = length + 2 + self.0[i].0.len() + value_len;
        }
        length
    }

    /// Append the table's encoding to `dst`: a variable marker, the name,
    /// a value marker and the value, for each entry in order.
    #[verifier::loop_isolation(false)]
    pub fn encode(&self, dst: &mut bytes::BytesMut)
        requires
            byte_content(*old(dst)).len() + spec_table_encoding(self.0@, 0).len() <= usize::MAX / 2,
        ensures
            byte_content(*final(dst)) == byte_content(*old(dst)) + spec_table_encoding(self.0@, 0),
    {
        let ghost dst0 = byte_content(*old(dst));
        let n = self.0.len();
        let mut i: usize = 0;
        while i < n
            invariant
                i <= n,
                n == self.0@.len(),
                dst0.len() + spec_table_encoding(self.0@, 0).len() <= usize::MAX / 2,
                dst0 + spec_table_encoding(self.0@, 0) == byte_content(*dst) + spec_table_encoding(
                    self.0@,
                    i as int,
                ),
            decreases n - i,
        {
            proof {
                lemma_table_encoding_len(self.0@, 0);
                lemma_value_encoding_len(self.0@[i as int].1);
                lemma_table_encoding_len(self.0@, i as int);
            }
            buf_put_u8(dst, VAR);
            let key = &self.0[i].0;
            let key_len = key.len();
            let mut k: usize = 0;
            let ghost key_start = byte_content(*dst);
            while k < key_len
                invariant
                    k <= key_len,
                    key_len == key@.len(),
                    key_start.len() + key@.len() <= usize::MAX / 2,
                    byte_content(*dst) == key_start + key@.take(k as int),
                decreases key_len - k,
            {
                buf_put_u8(dst, key[k]);
                proof {
                    assert(byte_content(*dst) =~= key_start + key@.take(k + 1 as int));
                }
                k = k + 1;
            }
            proof {
                assert(key@.take(key_len as int) =~= key@);
            }
            buf_put_u8(dst, VAL);
            self.0[i].1.encode(dst);
            proof {
                assert(dst0 + spec_table_encoding(self.0@, 0) =~= byte_content(*dst) + spec_table_encoding(
                    self.0@,
                    i + 1 as int,
                ));
            }
            i = i + 1;
        }
    }
}

} // verus!
