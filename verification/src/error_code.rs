//! The error code that a command which could not be executed leaves in the
//! error pipe for the monitor: four bytes in the byte order of the machine.
use vstd::prelude::*;

verus! {

/// In which order the bytes of an integer stand in memory.
#[derive(Clone, Copy, PartialEq, Eq, Structural, Debug)]
pub enum ByteOrder {
    /// The least significant byte comes first.
    Little,
    /// The most significant byte comes first.
    Big,
}

/// Byte `index` of the two's complement of `value`, counted from the least
/// significant one.
pub open spec fn byte_of(value: i32, index: int) -> u8 {
    if index == 0 {
        (value as u32 & 0xff) as u8
    } else if index == 1 {
        ((value as u32 >> 8) & 0xff) as u8
    } else if index == 2 {
        ((value as u32 >> 16) & 0xff) as u8
    } else {
        ((value as u32 >> 24) & 0xff) as u8
    }
}

/// The four bytes of `value` in the given order.
pub open spec fn bytes_of(order: ByteOrder, value: i32) -> Seq<u8> {
    match order {
        ByteOrder::Little => Seq::new(4, |i: int| byte_of(value, i)),
        ByteOrder::Big => Seq::new(4, |i: int| byte_of(value, 3 - i)),
    }
}

/// The integer whose two's complement the four bytes are, in the given order.
pub open spec fn value_of(order: ByteOrder, bytes: Seq<u8>) -> i32 {
    match order {
        ByteOrder::Little => assembled(bytes[0], bytes[1], bytes[2], bytes[3]),
        ByteOrder::Big => assembled(bytes[3], bytes[2], bytes[1], bytes[0]),
    }
}

/// The integer with these bytes, the least significant one first.
pub open spec fn assembled(b0: u8, b1: u8, b2: u8, b3: u8) -> i32 {
    ((b0 as u32) | ((b1 as u32) << 8) | ((b2 as u32) << 16) | ((b3 as u32) << 24)) as i32
}

/// `i32::to_ne_bytes`: the bytes of `value` in the byte order of the machine,
/// which is one of the two orders.
#[verifier::external_body]
fn to_ne_bytes(value: i32) -> (bytes: [u8; 4])
    ensures
        bytes@ == bytes_of(ByteOrder::Little, value) || bytes@ == bytes_of(ByteOrder::Big, value),
{
    value.to_ne_bytes()
}

impl ByteOrder {
    /// This is the order in which the machine lays out integers: the bytes that
    /// `to_ne_bytes` gives for the number one stand in it.
    pub closed spec fn of_host(self) -> bool {
        exists|bytes: [u8; 4]| #[trigger]
            call_ensures(to_ne_bytes, (1i32,), bytes) && bytes@ == bytes_of(self, 1)
    }

    /// The byte order of the machine that the program runs on.
    pub fn native() -> (order: ByteOrder)
        ensures
            order.of_host(),
    {
        let bytes: [u8; 4] = to_ne_bytes(1);
        assert(call_ensures(to_ne_bytes, (1i32,), bytes));
        Self::laying_out_one(bytes)
    }

    /// The byte order in which the number one is laid out as these bytes.
    pub fn laying_out_one(bytes: [u8; 4]) -> (order: ByteOrder)
        requires
            bytes@ == bytes_of(ByteOrder::Little, 1) || bytes@ == bytes_of(ByteOrder::Big, 1),
        ensures
            bytes@ == bytes_of(order, 1),
            forall|other: ByteOrder| bytes@ == #[trigger] bytes_of(other, 1) ==> other == order,
    {
        proof {
            assert((1i32 as u32 & 0xff) as u8 == 1) by (bit_vector);
            assert(((1i32 as u32 >> 24) & 0xff) as u8 == 0) by (bit_vector);
            assert(bytes_of(ByteOrder::Little, 1)[0] == 1);
            assert(bytes_of(ByteOrder::Big, 1)[0] == 0);
        }
        if bytes[0] == 1 {
            ByteOrder::Little
        } else {
            ByteOrder::Big
        }
    }

    /// Lays `code` out as four bytes.
    pub fn encode(self, code: i32) -> (bytes: [u8; 4])
        ensures
            bytes@ == bytes_of(self, code),
    {
        let bits: u32 = code as u32;
        let b0: u8 = (bits & 0xff) as u8;
        let b1: u8 = ((bits >> 8) & 0xff) as u8;
        let b2: u8 = ((bits >> 16) & 0xff) as u8;
        let b3: u8 = ((bits >> 24) & 0xff) as u8;
        match self {
            ByteOrder::Little => [b0, b1, b2, b3],
            ByteOrder::Big => [b3, b2, b1, b0],
        }
    }

    /// Reads four bytes back.
    pub fn decode(self, bytes: [u8; 4]) -> (code: i32)
        ensures
            code == value_of(self, bytes@),
    {
        let (b0, b1, b2, b3): (u8, u8, u8, u8) = match self {
            ByteOrder::Little => (bytes[0], bytes[1], bytes[2], bytes[3]),
            ByteOrder::Big => (bytes[3], bytes[2], bytes[1], bytes[0]),
        };
        let bits: u32 = (b0 as u32) | ((b1 as u32) << 8) | ((b2 as u32) << 16) | ((b3 as u32) << 24);
        bits as i32
    }
}

/// Whatever the byte order, reading back the bytes of an error code gives the
/// error code.
pub proof fn law_error_code_survives(order: ByteOrder, code: i32)
    ensures
        value_of(order, bytes_of(order, code)) == code,
{
    let (b0, b1) = (byte_of(code, 0), byte_of(code, 1));
    let (b2, b3) = (byte_of(code, 2), byte_of(code, 3));
    assert(((b0 as u32) | ((b1 as u32) << 8) | ((b2 as u32) << 16) | ((b3 as u32) << 24)) as i32
        == code) by (bit_vector)
        requires
            b0 == (code as u32 & 0xff) as u8,
            b1 == ((code as u32 >> 8) & 0xff) as u8,
            b2 == ((code as u32 >> 16) & 0xff) as u8,
            b3 == ((code as u32 >> 24) & 0xff) as u8,
    ;
}

/// Every four bytes are those of some error code: the monitor can make sense of
/// whatever comes through the pipe.
pub proof fn law_bytes_survive(order: ByteOrder, bytes: Seq<u8>)
    requires
        bytes.len() == 4,
    ensures
        bytes_of(order, value_of(order, bytes)) == bytes,
{
    let (b0, b1, b2, b3) = match order {
        ByteOrder::Little => (bytes[0], bytes[1], bytes[2], bytes[3]),
        ByteOrder::Big => (bytes[3], bytes[2], bytes[1], bytes[0]),
    };
    let code = assembled(b0, b1, b2, b3);
    assert((code as u32 & 0xff) as u8 == b0 && ((code as u32 >> 8) & 0xff) as u8 == b1 && ((
    code as u32 >> 16) & 0xff) as u8 == b2 && ((code as u32 >> 24) & 0xff) as u8 == b3)
        by (bit_vector)
        requires
            code == ((b0 as u32) | ((b1 as u32) << 8) | ((b2 as u32) << 16) | ((b3 as u32)
                << 24)) as i32,
    ;
    assert(bytes_of(order, value_of(order, bytes)) =~= bytes);
}

/// The bytes of an error code are its digits to the base 256, those of a negative
/// one the digits of its two's complement. The two orders are the reverse of each
/// other.
pub proof fn law_bytes_are_digits(code: i32)
    ensures
        ({
            let little = bytes_of(ByteOrder::Little, code);
            let big = bytes_of(ByteOrder::Big, code);
            &&& little.len() == 4 && big.len() == 4
            &&& big[0] == little[3] && big[1] == little[2]
            &&& big[2] == little[1] && big[3] == little[0]
            &&& little[0] + 256 * little[1] + 65536 * little[2] + 16777216 * little[3] == if code
                < 0 {
                code + 4294967296
            } else {
                code as int
            }
        }),
{
    let (b0, b1) = (byte_of(code, 0), byte_of(code, 1));
    let (b2, b3) = (byte_of(code, 2), byte_of(code, 3));
    let bits = code as u32;
    assert(b0 + 256 * b1 + 65536 * b2 + 16777216 * b3 == bits) by (bit_vector)
        requires
            b0 == (bits & 0xff) as u8,
            b1 == ((bits >> 8) & 0xff) as u8,
            b2 == ((bits >> 16) & 0xff) as u8,
            b3 == ((bits >> 24) & 0xff) as u8,
    ;
    assert(code < 0 ==> code as u32 == code + 4294967296) by (bit_vector);
    assert(code >= 0 ==> code as u32 == code) by (bit_vector);
}

/// What was laid out as bytes is read back, and the bytes are the digits of the
/// code, the least significant one first or last.
pub proof fn law_encode_then_decode(order: ByteOrder, code: i32, bytes: [u8; 4], back: i32)
    requires
        call_ensures(ByteOrder::encode, (order, code), bytes),
        call_ensures(ByteOrder::decode, (order, bytes), back),
    ensures
        back == code,
        order == ByteOrder::Little ==> bytes@[0] + 256 * bytes@[1] + 65536 * bytes@[2] + 16777216
            * bytes@[3] == if code < 0 {
            code + 4294967296
        } else {
            code as int
        },
        order == ByteOrder::Big ==> bytes@[3] + 256 * bytes@[2] + 65536 * bytes@[1] + 16777216
            * bytes@[0] == if code < 0 {
            code + 4294967296
        } else {
            code as int
        },
{
    law_error_code_survives(order, code);
    law_bytes_are_digits(code);
}

/// The order is told by the end at which the number one has its digit.
pub proof fn law_digit_of_one_tells_the_order(bytes: [u8; 4], order: ByteOrder)
    requires
        call_ensures(ByteOrder::laying_out_one, (bytes,), order),
    ensures
        order == ByteOrder::Little ==> bytes@ == seq![1u8, 0, 0, 0],
        order == ByteOrder::Big ==> bytes@ == seq![0u8, 0, 0, 1],
{
    law_bytes_are_digits(1);
}

} // verus!
