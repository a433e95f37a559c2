//! Identifiers of stored items: twelve bytes, exchanged externally as a
//! string of twenty-four hexadecimal digits.

use vstd::prelude::*;
use vstd::string::StrSliceExecFns;
use vstd::string::StringExecFns;

verus! {

/// An item identifier: exactly twelve bytes.
pub struct ItemId {
    bytes: Vec<u8>,
}

impl View for ItemId {
    type V = Seq<u8>;

    closed spec fn view(&self) -> Seq<u8> {
        self.bytes@
    }
}

/// Whether a character is a hexadecimal digit, in either case.
pub open spec fn is_hex_digit(c: char) -> bool {
    ('0' as u32 <= c as u32 && c as u32 <= '9' as u32)
        || ('a' as u32 <= c as u32 && c as u32 <= 'f' as u32)
        || ('A' as u32 <= c as u32 && c as u32 <= 'F' as u32)
}

/// The numeric value of a hexadecimal digit.
pub open spec fn hex_digit_value(c: char) -> u8
    recommends
        is_hex_digit(c),
{
    if '0' as u32 <= c as u32 && c as u32 <= '9' as u32 {
        (c as u32 - '0' as u32) as u8
    } else if 'a' as u32 <= c as u32 && c as u32 <= 'f' as u32 {
        (c as u32 - 'a' as u32 + 10) as u8
    } else {
        (c as u32 - 'A' as u32 + 10) as u8
    }
}

/// The lower-case hexadecimal digit for a value below sixteen.
pub open spec fn hex_digit_char(v: u8) -> char
    recommends
        v < 16,
{
    if v == 0 { '0' }
    else if v == 1 { '1' }
    else if v == 2 { '2' }
    else if v == 3 { '3' }
    else if v == 4 { '4' }
    else if v == 5 { '5' }
    else if v == 6 { '6' }
    else if v == 7 { '7' }
    else if v == 8 { '8' }
    else if v == 9 { '9' }
    else if v == 10 { 'a' }
    else if v == 11 { 'b' }
    else if v == 12 { 'c' }
    else if v == 13 { 'd' }
    else if v == 14 { 'e' }
    else { 'f' }
}

/// A well-formed external identifier: twenty-four hexadecimal digits.
pub open spec fn valid_object_id_str(s: Seq<char>) -> bool {
    s.len() == 24 && (forall|i: int| 0 <= i < 24 ==> is_hex_digit(#[trigger] s[i]))
}

/// The bytes an identifier string decodes to: each pair of digits one byte,
/// high digit first.
pub open spec fn decoded_bytes(s: Seq<char>) -> Seq<u8> {
    Seq::new((s.len() / 2) as nat, |i: int|
        (hex_digit_value(s[2 * i]) * 16 + hex_digit_value(s[2 * i + 1])) as u8)
}

/// The lower-case hexadecimal rendering of a byte sequence: two digits per
/// byte, high digit first.
pub open spec fn hex_of(b: Seq<u8>) -> Seq<char> {
    Seq::new(2 * b.len(), |i: int|
        if i % 2 == 0 { hex_digit_char(b[i / 2] / 16) } else { hex_digit_char(b[i / 2] % 16) })
}

impl ItemId {
    #[verifier::type_invariant]
    spec fn twelve_bytes(self) -> bool {
        self.bytes@.len() == 12
    }

    /// Wraps twelve bytes as an identifier.
    pub fn from_bytes(bytes: Vec<u8>) -> (id: ItemId)
        requires
            bytes@.len() == 12,
        ensures
            id@ == bytes@,
    {
        ItemId { bytes }
    }

    /// The identifier's bytes: always exactly twelve.
    pub fn as_bytes(&self) -> (b: &Vec<u8>)
        ensures
            b@ == self@,
            b@.len() == 12,
    {
        proof {
            use_type_invariant(self);
        }
        &self.bytes
    }

    /// The external form of the identifier: its bytes in lower-case
    /// hexadecimal.
    pub fn to_hex(&self) -> (r: String)
        ensures
            r@ == hex_of(self@),
            r@.len() == 24,
    {
        proof {
            use_type_invariant(self);
        }
        let mut r = String::new();
        let mut i: usize = 0;
        while i < 12
            invariant
                self@.len() == 12,
                i <= 12,
                r@ =~= hex_of(self@).subrange(0, 2 * i as int),
            decreases 12 - i,
        {
            let b = self.bytes[i];
            push_hex_digit(&mut r, b / 16);
            push_hex_digit(&mut r, b % 16);
            proof {
                assert(hex_of(self@)[2 * i as int] == hex_digit_char(self@[i as int] / 16));
                assert(hex_of(self@)[2 * i as int + 1] == hex_digit_char(self@[i as int] % 16));
                assert(r@ =~= hex_of(self@).subrange(0, 2 * (i + 1) as int));
            }
            i = i + 1;
        }
        proof {
            assert(r@ =~= hex_of(self@));
        }
        r
    }
}

impl Clone for ItemId {
    fn clone(&self) -> (r: Self)
        ensures
            r@ == self@,
    {
        proof {
            use_type_invariant(self);
        }
        ItemId { bytes: clone_bytes(&self.bytes) }
    }
}

/// A copy of a byte vector, element for element.
fn clone_bytes(v: &Vec<u8>) -> (r: Vec<u8>)
    ensures
        r@ == v@,
{
    let mut r: Vec<u8> = Vec::new();
    let mut i: usize = 0;
    while i < v.len()
        invariant
            i <= v@.len(),
            r@ =~= v@.subrange(0, i as int),
        decreases v@.len() - i,
    {
        r.push(v[i]);
        i = i + 1;
    }
    proof {
        assert(r@ =~= v@);
    }
    r
}

/// Appends one hexadecimal digit to a string.
fn push_hex_digit(s: &mut String, v: u8)
    requires
        v < 16,
    ensures
        final(s)@ == old(s)@.push(hex_digit_char(v)),
{
    if v == 0 {
        proof { reveal_strlit("0"); }
        s.append("0");
    } else if v == 1 {
        proof { reveal_strlit("1"); }
        s.append("1");
    } else if v == 2 {
        proof { reveal_strlit("2"); }
        s.append("2");
    } else if v == 3 {
        proof { reveal_strlit("3"); }
        s.append("3");
    } else if v == 4 {
        proof { reveal_strlit("4"); }
        s.append("4");
    } else if v == 5 {
        proof { reveal_strlit("5"); }
        s.append("5");
    } else if v == 6 {
        proof { reveal_strlit("6"); }
        s.append("6");
    } else if v == 7 {
        proof { reveal_strlit("7"); }
        s.append("7");
    } else if v == 8 {
        proof { reveal_strlit("8"); }
        s.append("8");
    } else if v == 9 {
        proof { reveal_strlit("9"); }
        s.append("9");
    } else if v == 10 {
        proof { reveal_strlit("a"); }
        s.append("a");
    } else if v == 11 {
        proof { reveal_strlit("b"); }
        s.append("b");
    } else if v == 12 {
        proof { reveal_strlit("c"); }
        s.append("c");
    } else if v == 13 {
        proof { reveal_strlit("d"); }
        s.append("d");
    } else if v == 14 {
        proof { reveal_strlit("e"); }
        s.append("e");
    } else {
        proof { reveal_strlit("f"); }
        s.append("f");
    }
    proof {
        assert(s@ =~= old(s)@.push(hex_digit_char(v)));
    }
}

/// The numeric value of one character, where it is a hexadecimal digit.
fn hex_value(c: char) -> (r: Option<u8>)
    ensures
        r is Some <==> is_hex_digit(c),
        r matches Some(v) ==> v == hex_digit_value(c) && v < 16,
{
    let u = c as u32;
    if 48 <= u && u <= 57 {
        Some((u - 48) as u8)
    } else if 97 <= u && u <= 102 {
        Some((u - 97 + 10) as u8)
    } else if 65 <= u && u <= 70 {
        Some((u - 65 + 10) as u8)
    } else {
        None
    }
}

/// Parses an external identifier string. Answers an identifier exactly when
/// the string is twenty-four hexadecimal digits; the identifier holds the
/// decoded bytes.
pub fn parse_object_id(s: &str) -> (r: Option<ItemId>)
    ensures
        r is Some <==> valid_object_id_str(s@),
        r matches Some(id) ==> id@ == decoded_bytes(s@),
{
    if s.unicode_len() != 24 {
        return None;
    }
    let mut bytes: Vec<u8> = Vec::new();
    let mut i: usize = 0;
    while i < 12
        invariant
            s@.len() == 24,
            i <= 12,
            bytes@.len() == i,
            forall|j: int| 0 <= j < 2 * i ==> is_hex_digit(#[trigger] s@[j]),
            forall|j: int| 0 <= j < i ==> bytes@[j] == decoded_bytes(s@)[j],
        decreases 12 - i,
    {
        let hi = match hex_value(s.get_char(2 * i)) {
            Some(v) => v,
            None => {
                proof {
                    assert(!is_hex_digit(s@[2 * i as int]));
                }
                return None;
            },
        };
        let lo = match hex_value(s.get_char(2 * i + 1)) {
            Some(v) => v,
            None => {
                proof {
                    assert(!is_hex_digit(s@[2 * i as int + 1]));
                }
                return None;
            },
        };
        bytes.push(hi * 16 + lo);
        i = i + 1;
    }
    proof {
        assert(bytes@ =~= decoded_bytes(s@));
    }
    Some(ItemId::from_bytes(bytes))
}

/// Decoding inverts encoding: the hexadecimal rendering of any twelve bytes
/// is a well-formed identifier string, and it decodes to the same bytes.
pub proof fn lemma_hex_round_trip(b: Seq<u8>)
    requires
        b.len() == 12,
    ensures
        valid_object_id_str(hex_of(b)),
        decoded_bytes(hex_of(b)) == b,
{
    let h = hex_of(b);
    assert forall|i: int| 0 <= i < 24 implies is_hex_digit(#[trigger] h[i]) by {
        if i % 2 == 0 {
            lemma_hex_digit_char_inverts(b[i / 2] / 16);
        } else {
            lemma_hex_digit_char_inverts(b[i / 2] % 16);
        }
    }
    assert forall|i: int| 0 <= i < 12 implies decoded_bytes(h)[i] == b[i] by {
        let v = b[i];
        lemma_hex_digit_char_inverts(v / 16);
        lemma_hex_digit_char_inverts(v % 16);
        assert(h[2 * i] == hex_digit_char(v / 16));
        assert(h[2 * i + 1] == hex_digit_char(v % 16));
        assert((v / 16) * 16 + v % 16 == v) by (nonlinear_arith);
    }
    assert(decoded_bytes(h) =~= b);
}

/// Each digit character decodes to the value it was written from.
proof fn lemma_hex_digit_char_inverts(v: u8)
    requires
        v < 16,
    ensures
        is_hex_digit(hex_digit_char(v)),
        hex_digit_value(hex_digit_char(v)) == v,
{
}

} // verus!
