//! The postcard encoding of the plain values that Rynk payloads are made of.
//!
//! Everything here is specification: what bytes a value stands for, what value
//! a run of bytes stands for, and that the two agree.
use crate::error::{DecodeError, DeviceError};
use vstd::prelude::*;

verus! {

/// What reading a value off the front of some bytes gives: the value and how
/// many bytes it took, or why there is none.
pub type Taken<V> = Result<(V, nat), DecodeError>;

/// The variable-length encoding of an unsigned integer: seven bits to a byte,
/// low bits first, the high bit set on every byte but the last.
pub open spec fn varint(n: nat) -> Seq<u8>
    decreases n,
{
    if n < 128 {
        seq![n as u8]
    } else {
        seq![(n % 128 + 128) as u8] + varint(n / 128)
    }
}

/// The integer at the front of `bytes`, in at most `max_len` bytes of which a
/// `max_len`-th may not exceed `max_last`.
pub open spec fn take_varint(bytes: Seq<u8>, max_len: nat, max_last: nat) -> Taken<nat>
    decreases max_len,
{
    if max_len == 0 {
        Err(DecodeError::BadVarint)
    } else if bytes.len() == 0 {
        Err(DecodeError::UnexpectedEnd)
    } else if bytes[0] < 128 {
        if max_len == 1 && bytes[0] > max_last {
            Err(DecodeError::BadVarint)
        } else {
            Ok((bytes[0] as nat, 1))
        }
    } else {
        match take_varint(bytes.skip(1), (max_len - 1) as nat, max_last) {
            Ok((high, n)) => Ok(((bytes[0] - 128 + 128 * high) as nat, n + 1)),
            Err(e) => Err(e),
        }
    }
}

/// How many integers `take_varint` can tell apart within these limits.
pub open spec fn varint_range(max_len: nat, max_last: nat) -> nat
    decreases max_len,
{
    if max_len == 0 {
        0
    } else if max_len == 1 {
        max_last + 1
    } else {
        128 * varint_range((max_len - 1) as nat, max_last)
    }
}

/// The `u16` at the front of `bytes`.
pub open spec fn take_u16(bytes: Seq<u8>) -> Taken<nat> {
    take_varint(bytes, 3, 3)
}

/// The `u32` at the front of `bytes`; enum tags are read this way.
pub open spec fn take_u32(bytes: Seq<u8>) -> Taken<nat> {
    take_varint(bytes, 5, 15)
}

/// The kinds of plain field that payload structs are made of.
pub enum Field {
    U8,
    U16,
    Bool,
}

impl Field {
    /// Whether a field of this kind can hold `value`.
    pub open spec fn admits(self, value: nat) -> bool {
        match self {
            Field::U8 => value < 256,
            Field::U16 => value < 65536,
            Field::Bool => value < 2,
        }
    }

    /// The bytes of a field that holds `value`.
    pub open spec fn put(self, value: nat) -> Seq<u8> {
        match self {
            Field::U8 | Field::Bool => seq![value as u8],
            Field::U16 => varint(value),
        }
    }

    /// The field at the front of `bytes`.
    pub open spec fn take(self, bytes: Seq<u8>) -> Taken<nat> {
        match self {
            Field::U16 => take_u16(bytes),
            Field::U8 => if bytes.len() == 0 {
                Err(DecodeError::UnexpectedEnd)
            } else {
                Ok((bytes[0] as nat, 1))
            },
            Field::Bool => if bytes.len() == 0 {
                Err(DecodeError::UnexpectedEnd)
            } else if bytes[0] < 2 {
                Ok((bytes[0] as nat, 1))
            } else {
                Err(DecodeError::BadBool)
            },
        }
    }
}

/// Whether a struct with these fields can hold these values.
pub open spec fn admits(fields: Seq<Field>, values: Seq<nat>) -> bool {
    &&& fields.len() == values.len()
    &&& forall|i: int| 0 <= i < fields.len() ==> (#[trigger] fields[i]).admits(values[i])
}

/// The bytes of a struct with these fields: the fields one after another.
pub open spec fn put_fields(fields: Seq<Field>, values: Seq<nat>) -> Seq<u8>
    decreases fields.len(),
{
    if fields.len() == 0 {
        seq![]
    } else {
        fields[0].put(values[0]) + put_fields(fields.drop_first(), values.drop_first())
    }
}

/// The struct with these fields at the front of `bytes`.
pub open spec fn take_fields(fields: Seq<Field>, bytes: Seq<u8>) -> Taken<Seq<nat>>
    decreases fields.len(),
{
    if fields.len() == 0 {
        Ok((seq![], 0))
    } else {
        match fields[0].take(bytes) {
            Ok((value, n)) => match take_fields(fields.drop_first(), bytes.skip(n as int)) {
                Ok((values, m)) => Ok((seq![value] + values, n + m)),
                Err(e) => Err(e),
            },
            Err(e) => Err(e),
        }
    }
}

/// The device error with this enum tag.
pub open spec fn rynk_error(tag: nat) -> Option<DeviceError> {
    if tag == 0 {
        Some(DeviceError::Malformed)
    } else if tag == 1 {
        Some(DeviceError::NotReady)
    } else if tag == 2 {
        Some(DeviceError::StorageFault)
    } else if tag == 3 {
        Some(DeviceError::Internal)
    } else if tag == 4 {
        Some(DeviceError::Unimplemented)
    } else if tag == 5 {
        Some(DeviceError::Invalid)
    } else if tag == 6 {
        Some(DeviceError::UnknownCmd)
    } else if tag == 7 {
        Some(DeviceError::Locked)
    } else if tag == 8 {
        Some(DeviceError::Busy)
    } else {
        None
    }
}

/// The bytes after the tag of a response envelope.
pub open spec fn envelope_body(bytes: Seq<u8>) -> Seq<u8> {
    match take_u32(bytes) {
        Ok((tag, n)) => bytes.skip(n as int),
        Err(_) => seq![],
    }
}

/// The response envelope at the front of `bytes`: tag 0 and a body, or tag 1
/// and a device error. `body` is what the bytes after the tag give.
pub open spec fn take_envelope<V>(bytes: Seq<u8>, body: Taken<V>) -> Taken<Result<V, DeviceError>> {
    match take_u32(bytes) {
        Err(e) => Err(e),
        Ok((tag, n)) => if tag == 0 {
            match body {
                Ok((value, m)) => Ok((Ok(value), n + m)),
                Err(e) => Err(e),
            }
        } else if tag == 1 {
            match take_u32(envelope_body(bytes)) {
                Ok((tag, m)) => match rynk_error(tag) {
                    Some(error) => Ok((Err(error), n + m)),
                    None => Err(DecodeError::BadValue),
                },
                Err(e) => Err(e),
            }
        } else {
            Err(DecodeError::BadValue)
        },
    }
}

/// The value that was read, if one was.
pub open spec fn value_of<V>(taken: Taken<V>) -> Option<V> {
    match taken {
        Ok((value, n)) => Some(value),
        Err(_) => None,
    }
}

/// The nothing at the front of `bytes`.
pub open spec fn take_unit(bytes: Seq<u8>) -> Taken<()> {
    Ok(((), 0))
}

/// The byte at the front of `bytes`.
pub open spec fn take_byte(bytes: Seq<u8>) -> Taken<u8> {
    match Field::U8.take(bytes) {
        Ok((value, n)) => Ok((value as u8, n)),
        Err(e) => Err(e),
    }
}

/// The word at the front of `bytes`.
pub open spec fn take_word(bytes: Seq<u8>) -> Taken<u16> {
    match Field::U16.take(bytes) {
        Ok((value, n)) => Ok((value as u16, n)),
        Err(e) => Err(e),
    }
}

/// The flag at the front of `bytes`.
pub open spec fn take_flag(bytes: Seq<u8>) -> Taken<bool> {
    match Field::Bool.take(bytes) {
        Ok((value, n)) => Ok((value == 1, n)),
        Err(e) => Err(e),
    }
}

/// The enum tag at the front of `bytes`, of an enum with `count` variants.
pub open spec fn take_tag(bytes: Seq<u8>, count: nat) -> Taken<nat> {
    match take_u32(bytes) {
        Ok((tag, n)) => if tag < count {
            Ok((tag, n))
        } else {
            Err(DecodeError::BadValue)
        },
        Err(e) => Err(e),
    }
}

/// The bytes of an optional byte: a tag, then the byte where there is one.
pub open spec fn put_option(value: Option<u8>) -> Seq<u8> {
    match value {
        None => seq![0u8],
        Some(byte) => seq![1u8, byte],
    }
}

/// The optional byte at the front of `bytes`.
pub open spec fn take_option(bytes: Seq<u8>) -> Taken<Option<u8>> {
    if bytes.len() == 0 {
        Err(DecodeError::UnexpectedEnd)
    } else if bytes[0] == 0 {
        Ok((None, 1))
    } else if bytes[0] == 1 {
        match take_byte(bytes.skip(1)) {
            Ok((byte, n)) => Ok((Some(byte), n + 1)),
            Err(e) => Err(e),
        }
    } else {
        Err(DecodeError::BadOption)
    }
}

/// The bytes of a response envelope that accepts, around the body's bytes.
pub open spec fn put_accept(body: Seq<u8>) -> Seq<u8> {
    seq![0u8] + body
}

/// An integer within the limits is read back from its own encoding, whatever
/// follows it, and takes exactly the bytes of that encoding.
pub proof fn varint_is_read_back(n: nat, max_len: nat, max_last: nat, tail: Seq<u8>)
    requires
        n < varint_range(max_len, max_last),
        max_last < 128,
    ensures
        take_varint(varint(n) + tail, max_len, max_last) == Ok::<(nat, nat), DecodeError>(
            (n, varint(n).len()),
        ),
    decreases max_len,
{
    let bytes = varint(n) + tail;
    if n >= 128 {
        if max_len <= 1 {
            assert(varint_range(max_len, max_last) <= 128);
        } else {
            varint_is_read_back(n / 128, (max_len - 1) as nat, max_last, tail);
            assert(bytes.skip(1) =~= varint(n / 128) + tail);
        }
    } else {
        assert(bytes[0] == n as u8);
    }
}

/// A plain struct is read back from its own encoding, whatever follows it.
pub proof fn fields_are_read_back(fields: Seq<Field>, values: Seq<nat>, tail: Seq<u8>)
    requires
        admits(fields, values),
    ensures
        take_fields(fields, put_fields(fields, values) + tail) == Ok::<
            (Seq<nat>, nat),
            DecodeError,
        >((values, put_fields(fields, values).len())),
    decreases fields.len(),
{
    if fields.len() == 0 {
        assert(values =~= seq![]);
    } else {
        let rest = put_fields(fields.drop_first(), values.drop_first());
        let first = fields[0].put(values[0]);
        assert(first + rest + tail =~= first + (rest + tail));
        if fields[0] is U16 {
            reveal_with_fuel(varint_range, 4);
            varint_is_read_back(values[0], 3, 3, rest + tail);
        }
        assert(fields[0].admits(values[0]));
        assert(fields[0].take(first + (rest + tail)) == Ok::<(nat, nat), DecodeError>(
            (values[0], first.len()),
        ));
        assert((first + (rest + tail)).skip(first.len() as int) =~= rest + tail);
        assert forall|i: int| 0 <= i < fields.drop_first().len() implies (
        #[trigger] fields.drop_first()[i]).admits(values.drop_first()[i]) by {
            assert(fields[i + 1].admits(values[i + 1]));
        }
        fields_are_read_back(fields.drop_first(), values.drop_first(), tail);
        assert(seq![values[0]] + values.drop_first() =~= values);
    }
}

/// An accepting envelope is read back as its body's value, and takes one byte
/// more than the body.
pub proof fn acceptance_is_read_back<V>(body: Seq<u8>, taken: Taken<V>)
    ensures
        envelope_body(put_accept(body)) == body,
        take_envelope(put_accept(body), taken) == (match taken {
            Ok((value, n)) => Ok::<(Result<V, DeviceError>, nat), DecodeError>((Ok(value), n + 1)),
            Err(e) => Err(e),
        }),
{
    assert(put_accept(body).skip(1) =~= body);
    assert(put_accept(body)[0] == 0);
}

/// A rejecting envelope is read back as the device's error, whatever the
/// response type of the command.
pub proof fn rejection_is_read_back<V>(tag: nat, error: DeviceError, taken: Taken<V>)
    requires
        rynk_error(tag) == Some(error),
    ensures
        take_envelope(seq![1u8, tag as u8], taken) == Ok::<
            (Result<V, DeviceError>, nat),
            DecodeError,
        >((Err(error), 2)),
{
    let bytes = seq![1u8, tag as u8];
    assert(bytes.skip(1) =~= seq![tag as u8]);
    assert(bytes[0] == 1);
}

/// A byte, a word and a flag are each read back from their own encoding,
/// whatever follows.
pub proof fn scalars_are_read_back(byte: u8, word: u16, flag: bool, tail: Seq<u8>)
    ensures
        take_byte(seq![byte] + tail) == Ok::<(u8, nat), DecodeError>((byte, 1)),
        take_word(varint(word as nat) + tail) == Ok::<(u16, nat), DecodeError>(
            (word, varint(word as nat).len()),
        ),
        take_flag(seq![flag as u8] + tail) == Ok::<(bool, nat), DecodeError>((flag, 1)),
{
    reveal_with_fuel(varint_range, 4);
    varint_is_read_back(word as nat, 3, 3, tail);
}

/// The tag of an enum is read back, whatever follows it.
pub proof fn tags_are_read_back(tag: u8, count: nat, tail: Seq<u8>)
    requires
        tag < count,
        tag < 128,
    ensures
        take_tag(seq![tag] + tail, count) == Ok::<(nat, nat), DecodeError>((tag as nat, 1)),
{
    assert((seq![tag] + tail)[0] == tag);
}

} // verus!
