use vstd::prelude::*;
use vstd::string::StrSliceExecFns;

verus! {

/// A 20-byte contract address; all zero bytes stand for the native asset.
#[derive(Clone, Copy, Debug, PartialEq, Eq)]
pub struct Address {
    pub bytes: [u8; 20],
}

/// The value of a hexadecimal digit, in either case.
pub open spec fn hex_value(c: char) -> Option<u8> {
    if '0' <= c && c <= '9' {
        Some((c as u32 - '0' as u32) as u8)
    } else if 'a' <= c && c <= 'f' {
        Some((c as u32 - 'a' as u32 + 10) as u8)
    } else if 'A' <= c && c <= 'F' {
        Some((c as u32 - 'A' as u32 + 10) as u8)
    } else {
        None
    }
}

/// The lower-case digit of a value below 16.
pub open spec fn hex_digit(v: u8) -> char {
    if v < 10 {
        (v + '0' as u8) as char
    } else {
        (v - 10 + 'a' as u8) as char
    }
}

/// `s` is the text form of an address: `0x` and forty hexadecimal digits.
pub open spec fn is_address_text(s: Seq<char>) -> bool {
    &&& s.len() == 42
    &&& s[0] == '0'
    &&& s[1] == 'x'
    &&& forall|i: int| 2 <= i < 42 ==> (#[trigger] hex_value(s[i])) is Some
}

/// The byte that digits `2 + 2i` and `3 + 2i` of `s` spell, high digit first.
pub open spec fn text_byte(s: Seq<char>, i: int) -> u8 {
    (hex_value(s[2 + 2 * i])->0 * 16 + hex_value(s[3 + 2 * i])->0) as u8
}

/// `s` is the lower-case text form of `bytes`.
pub open spec fn is_text_of(s: Seq<char>, bytes: Seq<u8>) -> bool {
    &&& s.len() == 2 + 2 * bytes.len()
    &&& s[0] == '0'
    &&& s[1] == 'x'
    &&& forall|i: int|
        0 <= i < bytes.len() ==> s[2 + 2 * i] == hex_digit(#[trigger] bytes[i] / 16) && s[3 + 2
            * i] == hex_digit(bytes[i] % 16)
}

/// Relies on `String::push`: appends one character.
#[verifier::external_body]
fn push_char(s: &mut String, c: char)
    ensures
        final(s)@ == old(s)@.push(c),
{
    s.push(c)
}

fn digit_value(c: char) -> (r: Option<u8>)
    ensures
        r == hex_value(c),
{
    if '0' <= c && c <= '9' {
        Some((c as u32 - '0' as u32) as u8)
    } else if 'a' <= c && c <= 'f' {
        Some((c as u32 - 'a' as u32 + 10) as u8)
    } else if 'A' <= c && c <= 'F' {
        Some((c as u32 - 'A' as u32 + 10) as u8)
    } else {
        None
    }
}

fn digit_char(v: u8) -> (c: char)
    requires
        v < 16,
    ensures
        c == hex_digit(v),
{
    if v < 10 {
        (v + '0' as u8) as char
    } else {
        (v - 10 + 'a' as u8) as char
    }
}

impl Address {
    /// The all-zero address of the native asset.
    pub fn zero() -> (r: Address)
        ensures
            forall|i: int| 0 <= i < 20 ==> r.bytes[i] == 0,
    {
        Address { bytes: [0u8; 20] }
    }

    /// Reads the text form `0x` followed by forty hexadecimal digits of either
    /// case; anything else is refused.
    pub fn from_hex(s: &str) -> (r: Option<Address>)
        ensures
            r is Some <==> is_address_text(s@),
            r matches Some(a) ==> forall|i: int| 0 <= i < 20 ==> a.bytes[i] == text_byte(s@, i),
    {
        let n = s.unicode_len();
        if n != 42 || s.get_char(0) != '0' || s.get_char(1) != 'x' {
            return None;
        }
        let mut bytes = [0u8; 20];
        let mut i: usize = 0;
        while i < 20
            invariant
                s@.len() == 42,
                i <= 20,
                forall|k: int| 2 <= k < 2 + 2 * i ==> (#[trigger] hex_value(s@[k])) is Some,
                forall|k: int| 0 <= k < i ==> bytes[k] == text_byte(s@, k),
            decreases 20 - i,
        {
            let hi = digit_value(s.get_char(2 + 2 * i));
            let lo = digit_value(s.get_char(3 + 2 * i));
            match (hi, lo) {
                (Some(h), Some(l)) => {
                    bytes[i] = h * 16 + l;
                },
                _ => {
                    return None;
                },
            }
            i += 1;
        }
        Some(Address { bytes })
    }

    /// The lower-case text form: `0x` and two digits per byte.
    pub fn to_hex(&self) -> (r: String)
        ensures
            is_text_of(r@, self.bytes@),
    {
        let mut s = String::new();
        push_char(&mut s, '0');
        push_char(&mut s, 'x');
        let mut i: usize = 0;
        while i < 20
            invariant
                i <= 20,
                s@.len() == 2 + 2 * i,
                s@[0] == '0',
                s@[1] == 'x',
                forall|k: int|
                    0 <= k < i ==> s@[2 + 2 * k] == hex_digit(#[trigger] self.bytes@[k] / 16)
                        && s@[3 + 2 * k] == hex_digit(self.bytes@[k] % 16),
            decreases 20 - i,
        {
            let b = self.bytes[i];
            push_char(&mut s, digit_char(b / 16));
            push_char(&mut s, digit_char(b % 16));
            i += 1;
        }
        s
    }
}

/// Reading back the text form of an address gives the same address.
pub proof fn lemma_text_round_trip(a: Address, s: Seq<char>)
    requires
        is_text_of(s, a.bytes@),
    ensures
        is_address_text(s),
        forall|i: int| 0 <= i < 20 ==> text_byte(s, i) == a.bytes[i],
{
    assert forall|k: int| 2 <= k < 42 implies (#[trigger] hex_value(s[k])) is Some by {
        let i = (k - 2) / 2;
        assert(0 <= i < 20);
        let b = a.bytes@[i];
        lemma_digit_round_trip(b / 16);
        lemma_digit_round_trip(b % 16);
    }
    assert forall|i: int| 0 <= i < 20 implies text_byte(s, i) == a.bytes[i] by {
        let b = a.bytes@[i];
        lemma_digit_round_trip(b / 16);
        lemma_digit_round_trip(b % 16);
    }
}

proof fn lemma_digit_round_trip(v: u8)
    requires
        v < 16,
    ensures
        hex_value(hex_digit(v)) == Some(v),
{
}

} // verus!
