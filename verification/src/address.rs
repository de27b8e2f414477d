//! Account addresses: a fixed-length byte identifier, parsed from a
//! hexadecimal string with an optional `0x` prefix.

use vstd::prelude::*;
use vstd::string::StrSliceExecFns;
use crate::error::TransferError;

verus! {

/// Number of bytes in an account address.
pub const ADDRESS_BYTES: usize = 20;

/// A fixed-length account identifier. Equality is byte-exact; a value is
/// immutable once parsed.
#[derive(Debug)]
pub struct Address {
    pub bytes: Vec<u8>,
}

impl Address {
    /// The byte content, as the mathematical model of an address.
    pub open spec fn view(&self) -> Seq<u8> {
        self.bytes@
    }

    /// A well-formed address holds exactly `ADDRESS_BYTES` bytes.
    pub open spec fn wf(&self) -> bool {
        self.bytes@.len() == ADDRESS_BYTES
    }

    /// An independent copy with the same bytes.
    pub fn duplicate(&self) -> (r: Address)
        ensures
            r@ == self@,
            r.wf() == self.wf(),
    {
        let mut out: Vec<u8> = Vec::new();
        let mut i: usize = 0;
        while i < self.bytes.len()
            invariant
                i <= self.bytes@.len(),
                out@ == self.bytes@.take(i as int),
            decreases self.bytes@.len() - i,
        {
            out.push(self.bytes[i]);
            i = i + 1;
        }
        proof {
            assert(out@ =~= self.bytes@);
        }
        Address { bytes: out }
    }

    /// Byte-exact equality with another address.
    pub fn same_as(&self, other: &Address) -> (r: bool)
        ensures
            r == (self@ == other@),
    {
        if self.bytes.len() != other.bytes.len() {
            proof {
                assert(self@ != other@);
            }
            return false;
        }
        let mut i: usize = 0;
        while i < self.bytes.len()
            invariant
                i <= self.bytes@.len(),
                self.bytes@.len() == other.bytes@.len(),
                forall|j: int| 0 <= j < i ==> self.bytes@[j] == other.bytes@[j],
            decreases self.bytes@.len() - i,
        {
            if self.bytes[i] != other.bytes[i] {
                return false;
            }
            i = i + 1;
        }
        proof {
            assert(self@ =~= other@);
        }
        true
    }
}

/// Whether `c` is a hexadecimal digit.
pub open spec fn is_hex_digit(c: char) -> bool {
    (48 <= c as int && c as int <= 57) || (97 <= c as int && c as int <= 102) || (65 <= c as int
        && c as int <= 70)
}

/// Numeric value of a hexadecimal digit.
pub open spec fn hex_value(c: char) -> int {
    if 48 <= c as int && c as int <= 57 {
        c as int - 48
    } else if 97 <= c as int && c as int <= 102 {
        10 + (c as int - 97)
    } else {
        10 + (c as int - 65)
    }
}

/// The hex digits of an address string: the characters after an optional
/// `0x` prefix.
pub open spec fn address_digits(s: Seq<char>) -> Seq<char> {
    if s.len() >= 2 && s[0] == '0' && s[1] == 'x' {
        s.subrange(2, s.len() as int)
    } else {
        s
    }
}

/// A valid address string: exactly 40 hex digits after the optional prefix.
pub open spec fn valid_address_str(s: Seq<char>) -> bool {
    &&& address_digits(s).len() == 2 * ADDRESS_BYTES
    &&& forall|i: int|
        0 <= i < address_digits(s).len() ==> is_hex_digit(#[trigger] address_digits(s)[i])
}

/// The bytes an address string denotes: each byte is two hex digits,
/// high nibble first.
pub open spec fn address_value(s: Seq<char>) -> Seq<u8> {
    Seq::new(
        ADDRESS_BYTES as nat,
        |i: int| (hex_value(address_digits(s)[2 * i]) * 16 + hex_value(
            address_digits(s)[2 * i + 1],
        )) as u8,
    )
}

/// Numeric value of one hex digit character, or `None` when `c` is not a
/// hex digit.
fn hex_digit_value(c: char) -> (r: Option<u8>)
    ensures
        r is Some <==> is_hex_digit(c),
        r matches Some(v) ==> v == hex_value(c) && v < 16,
{
    let u: u32 = c as u32;
    if 48 <= u && u <= 57 {
        Some((u - 48) as u8)
    } else if 97 <= u && u <= 102 {
        Some((10 + (u - 97)) as u8)
    } else if 65 <= u && u <= 70 {
        Some((10 + (u - 65)) as u8)
    } else {
        None
    }
}

/// Parses an account address from a hexadecimal string with an optional
/// `0x` prefix. Succeeds exactly on valid address strings and returns the
/// denoted bytes; anything else is an address-format error.
pub fn parse_address(s: &str) -> (r: Result<Address, TransferError>)
    ensures
        r is Ok <==> valid_address_str(s@),
        r matches Ok(a) ==> a@ == address_value(s@) && a.wf(),
        r matches Err(e) ==> e is AddressFormat,
{
    let n = s.unicode_len();
    let has_prefix: bool = n >= 2 && s.get_char(0) == '0' && s.get_char(1) == 'x';
    let start: usize = if has_prefix { 2 } else { 0 };
    proof {
        if has_prefix {
            assert(address_digits(s@) =~= s@.subrange(2, s@.len() as int));
        } else {
            assert(address_digits(s@) =~= s@);
        }
    }
    if n - start != 2 * ADDRESS_BYTES {
        return Err(TransferError::AddressFormat);
    }
    let mut bytes: Vec<u8> = Vec::new();
    let mut i: usize = 0;
    while i < ADDRESS_BYTES
        invariant
            i <= ADDRESS_BYTES,
            n == s@.len(),
            start + 2 * ADDRESS_BYTES == n,
            start == 0 || start == 2,
            address_digits(s@) == s@.subrange(start as int, n as int),
            bytes@.len() == i,
            forall|j: int|
                0 <= j < 2 * i ==> is_hex_digit(#[trigger] address_digits(s@)[j]),
            forall|j: int|
                0 <= j < i ==> bytes@[j] == (hex_value(address_digits(s@)[2 * j]) * 16
                    + hex_value(address_digits(s@)[2 * j + 1])) as u8,
        decreases ADDRESS_BYTES - i,
    {
        let hi = match hex_digit_value(s.get_char(start + 2 * i)) {
            Some(v) => v,
            None => {
                proof {
                    assert(address_digits(s@)[2 * i] == s@[start + 2 * i]);
                    assert(!is_hex_digit(address_digits(s@)[2 * i]));
                }
                return Err(TransferError::AddressFormat);
            },
        };
        let lo = match hex_digit_value(s.get_char(start + 2 * i + 1)) {
            Some(v) => v,
            None => {
                proof {
                    assert(address_digits(s@)[2 * i + 1] == s@[start + 2 * i + 1]);
                    assert(!is_hex_digit(address_digits(s@)[2 * i + 1]));
                }
                return Err(TransferError::AddressFormat);
            },
        };
        bytes.push(hi * 16 + lo);
        i = i + 1;
    }
    proof {
        assert(valid_address_str(s@));
        assert(bytes@ =~= address_value(s@));
    }
    Ok(Address { bytes })
}

} // verus!
