//! Bluetooth device addresses.

use vstd::prelude::*;
use vstd::string::StringExecFns;

use crate::text::{lemma_split_nonempty, split_by};

verus! {

broadcast use vstd::string::group_string_axioms;

/// The 6 byte address used to identify Bluetooth devices.
#[derive(Debug, Clone, Copy, Eq, Hash)]
pub struct BDAddr {
    /// The address bytes, most significant first.
    pub address: [u8; 6],
}

impl BDAddr {
    /// The address bytes, most significant first.
    pub fn into_inner(self) -> (a: [u8; 6])
        ensures
            a == self.address,
    {
        self.address
    }
}

impl Default for BDAddr {
    fn default() -> (a: Self)
        ensures
            a@ == Seq::<u8>::empty().push(0).push(0).push(0).push(0).push(0).push(0),
    {
        BDAddr { address: [0u8, 0u8, 0u8, 0u8, 0u8, 0u8] }
    }
}

impl PartialEq for BDAddr {
    fn eq(&self, other: &Self) -> (r: bool) {
        let r = self.address[0] == other.address[0] && self.address[1] == other.address[1]
            && self.address[2] == other.address[2] && self.address[3] == other.address[3]
            && self.address[4] == other.address[4] && self.address[5] == other.address[5];
        proof {
            if r {
                assert(self.address@ =~= other.address@);
            }
        }
        r
    }
}

impl vstd::std_specs::cmp::PartialEqSpecImpl for BDAddr {
    open spec fn obeys_eq_spec() -> bool {
        true
    }

    open spec fn eq_spec(&self, other: &Self) -> bool {
        self.address@ == other.address@
    }
}

impl View for BDAddr {
    type V = Seq<u8>;

    open spec fn view(&self) -> Seq<u8> {
        self.address@
    }
}

impl From<[u8; 6]> for BDAddr {
    fn from(address: [u8; 6]) -> (a: BDAddr)
        ensures
            a.address == address,
    {
        BDAddr { address }
    }
}

impl vstd::std_specs::convert::FromSpecImpl<[u8; 6]> for BDAddr {
    open spec fn obeys_from_spec() -> bool {
        true
    }

    open spec fn from_spec(address: [u8; 6]) -> BDAddr {
        BDAddr { address }
    }
}

/// The value of a hexadecimal digit (`0-9`, `a-f`, `A-F`).
pub open spec fn hex_digit_value(c: char) -> Option<nat> {
    if '0' <= c && c <= '9' {
        Some((c as nat - '0' as nat) as nat)
    } else if 'a' <= c && c <= 'f' {
        Some((c as nat - 'a' as nat + 10) as nat)
    } else if 'A' <= c && c <= 'F' {
        Some((c as nat - 'A' as nat + 10) as nat)
    } else {
        None
    }
}

/// Why a text is not a hexadecimal byte.
#[derive(Debug, Clone, Copy, PartialEq, Eq)]
pub enum HexByteError {
    /// The text is empty.
    Empty,
    /// A character is not a hexadecimal digit.
    InvalidDigit,
    /// The value does not fit in a byte.
    PosOverflow,
}

impl HexByteError {
    /// The message of the error, as `u8::from_str_radix` words it.
    pub open spec fn spec_message(self) -> Seq<char> {
        match self {
            HexByteError::Empty => "cannot parse integer from empty string"@,
            HexByteError::InvalidDigit => "invalid digit found in string"@,
            HexByteError::PosOverflow => "number too large to fit in target type"@,
        }
    }

    /// The message of the error, as `u8::from_str_radix` words it.
    pub fn message(&self) -> (s: &'static str)
        ensures
            s@ == self.spec_message(),
    {
        match self {
            HexByteError::Empty => "cannot parse integer from empty string",
            HexByteError::InvalidDigit => "invalid digit found in string",
            HexByteError::PosOverflow => "number too large to fit in target type",
        }
    }
}

/// Reads hexadecimal digits left to right onto the value read so far.
pub open spec fn hex_fold(digits: Seq<char>, acc: nat) -> Result<nat, HexByteError>
    decreases digits.len(),
{
    if digits.len() == 0 {
        Ok(acc)
    } else {
        match hex_digit_value(digits[0]) {
            None => Err(HexByteError::InvalidDigit),
            Some(d) => if acc * 16 + d > 255 {
                Err(HexByteError::PosOverflow)
            } else {
                hex_fold(digits.drop_first(), acc * 16 + d)
            },
        }
    }
}

/// A byte written in hexadecimal, with an optional leading `+`: the behaviour
/// of `u8::from_str_radix(text, 16)`.
pub open spec fn spec_parse_hex_u8(text: Seq<char>) -> Result<nat, HexByteError> {
    if text.len() == 0 {
        Err(HexByteError::Empty)
    } else if text[0] == '+' {
        if text.len() == 1 {
            Err(HexByteError::InvalidDigit)
        } else {
            hex_fold(text.drop_first(), 0)
        }
    } else {
        hex_fold(text, 0)
    }
}

fn hex_digit(c: char) -> (r: Option<u8>)
    ensures
        match hex_digit_value(c) {
            Some(d) => r == Some(d as u8),
            None => r is None,
        },
{
    if '0' <= c && c <= '9' {
        Some(((c as u32) - ('0' as u32)) as u8)
    } else if 'a' <= c && c <= 'f' {
        Some(((c as u32) - ('a' as u32) + 10) as u8)
    } else if 'A' <= c && c <= 'F' {
        Some(((c as u32) - ('A' as u32) + 10) as u8)
    } else {
        None
    }
}

/// Parse a byte written in hexadecimal, as `u8::from_str_radix(text, 16)` does.
pub fn parse_hex_u8(text: &str) -> (r: Result<u8, HexByteError>)
    ensures
        match spec_parse_hex_u8(text@) {
            Ok(v) => r == Ok::<u8, HexByteError>(v as u8),
            Err(e) => r == Err::<u8, HexByteError>(e),
        },
{
    let chars = crate::text::chars_of(text);
    if chars.len() == 0 {
        return Err(HexByteError::Empty);
    }
    let mut i: usize = 0;
    if chars[0] == '+' {
        if chars.len() == 1 {
            return Err(HexByteError::InvalidDigit);
        }
        i = 1;
        assert(text@.drop_first() =~= text@.skip(1));
    } else {
        assert(text@ =~= text@.skip(0));
    }
    let ghost start = i as int;
    let mut acc: u8 = 0;
    while i < chars.len()
        invariant
            chars@ == text@,
            start <= i <= chars@.len(),
            spec_parse_hex_u8(text@) == hex_fold(text@.skip(start), 0),
            hex_fold(text@.skip(start), 0) == hex_fold(text@.skip(i as int), acc as nat),
        decreases chars@.len() - i,
    {
        assert(text@.skip(i as int).drop_first() =~= text@.skip(i + 1));
        match hex_digit(chars[i]) {
            None => {
                return Err(HexByteError::InvalidDigit);
            },
            Some(d) => {
                if acc > 15 || acc * 16 + d > 255 {
                    return Err(HexByteError::PosOverflow);
                }
                acc = acc * 16 + d;
            },
        }
        i = i + 1;
    }
    assert(text@.skip(i as int).len() == 0);
    Ok(acc)
}

/// The uppercase hexadecimal digit for a value below sixteen.
pub open spec fn hex_char(d: nat) -> char {
    if d == 0 { '0' }
    else if d == 1 { '1' }
    else if d == 2 { '2' }
    else if d == 3 { '3' }
    else if d == 4 { '4' }
    else if d == 5 { '5' }
    else if d == 6 { '6' }
    else if d == 7 { '7' }
    else if d == 8 { '8' }
    else if d == 9 { '9' }
    else if d == 10 { 'A' }
    else if d == 11 { 'B' }
    else if d == 12 { 'C' }
    else if d == 13 { 'D' }
    else if d == 14 { 'E' }
    else { 'F' }
}

fn hex_char_exec(d: u8) -> (c: char)
    requires
        d < 16,
    ensures
        c == hex_char(d as nat),
{
    if d == 0 { '0' }
    else if d == 1 { '1' }
    else if d == 2 { '2' }
    else if d == 3 { '3' }
    else if d == 4 { '4' }
    else if d == 5 { '5' }
    else if d == 6 { '6' }
    else if d == 7 { '7' }
    else if d == 8 { '8' }
    else if d == 9 { '9' }
    else if d == 10 { 'A' }
    else if d == 11 { 'B' }
    else if d == 12 { 'C' }
    else if d == 13 { 'D' }
    else if d == 14 { 'E' }
    else { 'F' }
}

/// A byte as two uppercase hexadecimal digits (`{:02X}`).
pub open spec fn hex2(b: u8) -> Seq<char> {
    seq![hex_char((b / 16) as nat), hex_char((b % 16) as nat)]
}

/// The text of an address: its six bytes as two uppercase hexadecimal digits
/// each, separated by colons, most significant first.
pub open spec fn spec_addr_text(a: Seq<u8>) -> Seq<char> {
    hex2(a[0]) + seq![':'] + hex2(a[1]) + seq![':'] + hex2(a[2]) + seq![':'] + hex2(a[3])
        + seq![':'] + hex2(a[4]) + seq![':'] + hex2(a[5])
}

fn push_hex2(s: &mut String, b: u8)
    ensures
        final(s)@ == old(s)@ + hex2(b),
{
    s.push(hex_char_exec(b / 16));
    s.push(hex_char_exec(b % 16));
    assert(final(s)@ =~= old(s)@ + hex2(b));
}

impl BDAddr {
    /// The address as text, such as `12:34:56:78:9A:BC`.
    pub fn to_text(&self) -> (s: String)
        ensures
            s@ == spec_addr_text(self@),
    {
        let mut s = String::new();
        push_hex2(&mut s, self.address[0]);
        s.push(':');
        push_hex2(&mut s, self.address[1]);
        s.push(':');
        push_hex2(&mut s, self.address[2]);
        s.push(':');
        push_hex2(&mut s, self.address[3]);
        s.push(':');
        push_hex2(&mut s, self.address[4]);
        s.push(':');
        push_hex2(&mut s, self.address[5]);
        assert(s@ =~= spec_addr_text(self@));
        s
    }
}

/// The message for a piece that is not a hexadecimal byte.
pub open spec fn bad_byte_message(piece: Seq<char>, e: HexByteError) -> Seq<char> {
    "Invalid hex byte '"@ + piece + "': "@ + e.spec_message()
}

/// The bytes of the pieces, or the message for the first piece that is not a
/// hexadecimal byte.
pub open spec fn parse_pieces(pieces: Seq<Seq<char>>) -> Result<Seq<u8>, Seq<char>>
    decreases pieces.len(),
{
    if pieces.len() == 0 {
        Ok(Seq::<u8>::empty())
    } else {
        match spec_parse_hex_u8(pieces[0]) {
            Err(e) => Err(bad_byte_message(pieces[0], e)),
            Ok(b) => match parse_pieces(pieces.drop_first()) {
                Ok(rest) => Ok(seq![b as u8] + rest),
                Err(m) => Err(m),
            },
        }
    }
}

/// What parsing a colon-separated address gives: six hexadecimal bytes, or
/// the message for a wrong count of pieces or for the first bad piece.
pub open spec fn spec_parse_bdaddr(s: Seq<char>) -> Result<Seq<u8>, Seq<char>> {
    let pieces = split_by(s, ':');
    if pieces.len() != 6 {
        Err("Invalid BDAddr format: "@ + s)
    } else {
        parse_pieces(pieces)
    }
}

/// Appending text without colons extends the last piece.
proof fn lemma_split_extend(x: Seq<char>, y: Seq<char>)
    requires
        forall|k: int| 0 <= k < y.len() ==> y[k] != ':',
    ensures
        split_by(x + y, ':') == split_by(x, ':').update(
            split_by(x, ':').len() - 1,
            split_by(x, ':').last() + y,
        ),
    decreases y.len(),
{
    lemma_split_nonempty(x, ':');
    let p = split_by(x, ':');
    if y.len() == 0 {
        assert(x + y =~= x);
        assert(p.last() + y =~= p.last());
        assert(p.update(p.len() - 1, p.last()) =~= p);
    } else {
        let y0 = y.drop_last();
        lemma_split_extend(x, y0);
        assert((x + y).drop_last() =~= x + y0);
        assert((x + y).last() == y.last());
        assert((p.last() + y0).push(y.last()) =~= p.last() + y);
        let q = split_by(x + y0, ':');
        assert(q.len() == p.len());
        assert(q.last() == p.last() + y0);
        assert(q.update(q.len() - 1, q.last().push(y.last())) =~= p.update(
            p.len() - 1,
            p.last() + y,
        ));
    }
}

/// A colon followed by text without colons starts one more piece.
proof fn lemma_split_colon_then(x: Seq<char>, y: Seq<char>)
    requires
        forall|k: int| 0 <= k < y.len() ==> y[k] != ':',
    ensures
        split_by(x + seq![':'] + y, ':') == split_by(x, ':').push(y),
{
    let xc = x + seq![':'];
    assert(xc.drop_last() =~= x);
    assert(split_by(xc, ':') == split_by(x, ':').push(Seq::<char>::empty()));
    lemma_split_extend(xc, y);
    let p = split_by(xc, ':');
    assert(p.last() + y =~= y);
    assert(p.update(p.len() - 1, y) =~= split_by(x, ':').push(y));
}

/// Text without colons is one piece.
proof fn lemma_split_single(y: Seq<char>)
    requires
        forall|k: int| 0 <= k < y.len() ==> y[k] != ':',
    ensures
        split_by(y, ':') == seq![y],
{
    let e = Seq::<char>::empty();
    lemma_split_extend(e, y);
    assert(e + y =~= y);
    assert(seq![e].update(0, e + y) =~= seq![y]);
}

/// Two hexadecimal digits read back as the byte they were written from.
proof fn lemma_hex2_parses(b: u8)
    ensures
        spec_parse_hex_u8(hex2(b)) == Ok::<nat, HexByteError>(b as nat),
        forall|k: int| 0 <= k < hex2(b).len() ==> hex2(b)[k] != ':',
{
    let hi = (b / 16) as nat;
    let lo = (b % 16) as nat;
    assert(hex_digit_value(hex_char(hi)) == Some(hi));
    assert(hex_digit_value(hex_char(lo)) == Some(lo));
    let t = hex2(b);
    assert(t[0] != '+');
    assert(t.drop_first() =~= seq![hex_char(lo)]);
    assert(t.drop_first().drop_first() =~= Seq::<char>::empty());
    assert(hi * 16 + lo == b as nat);
    assert(hex_fold(t.drop_first(), hi) == hex_fold(t.drop_first().drop_first(), hi * 16 + lo));
    assert(hex_fold(t, 0) == hex_fold(t.drop_first(), hi));
}

/// Reading back the text of an address gives the address.
pub proof fn lemma_addr_text_roundtrip(a: BDAddr)
    ensures
        spec_parse_bdaddr(spec_addr_text(a@)) == Ok::<Seq<u8>, Seq<char>>(a@),
{
    let v = a@;
    let h0 = hex2(v[0]);
    let h1 = hex2(v[1]);
    let h2 = hex2(v[2]);
    let h3 = hex2(v[3]);
    let h4 = hex2(v[4]);
    let h5 = hex2(v[5]);
    lemma_hex2_parses(v[0]);
    lemma_hex2_parses(v[1]);
    lemma_hex2_parses(v[2]);
    lemma_hex2_parses(v[3]);
    lemma_hex2_parses(v[4]);
    lemma_hex2_parses(v[5]);
    lemma_split_single(h0);
    let t1 = h0 + seq![':'] + h1;
    lemma_split_colon_then(h0, h1);
    let t2 = t1 + seq![':'] + h2;
    lemma_split_colon_then(t1, h2);
    let t3 = t2 + seq![':'] + h3;
    lemma_split_colon_then(t2, h3);
    let t4 = t3 + seq![':'] + h4;
    lemma_split_colon_then(t3, h4);
    let t5 = t4 + seq![':'] + h5;
    lemma_split_colon_then(t4, h5);
    assert(t5 == spec_addr_text(v));
    let pieces = split_by(t5, ':');
    assert(pieces =~= seq![h0, h1, h2, h3, h4, h5]);
    assert(pieces.drop_first() =~= seq![h1, h2, h3, h4, h5]);
    assert(pieces.drop_first().drop_first() =~= seq![h2, h3, h4, h5]);
    assert(pieces.drop_first().drop_first().drop_first() =~= seq![h3, h4, h5]);
    assert(pieces.drop_first().drop_first().drop_first().drop_first() =~= seq![h4, h5]);
    assert(pieces.drop_first().drop_first().drop_first().drop_first().drop_first() =~= seq![h5]);
    assert(pieces.drop_first().drop_first().drop_first().drop_first().drop_first().drop_first()
        =~= Seq::<Seq<char>>::empty());
    reveal_with_fuel(parse_pieces, 7);
    assert(parse_pieces(pieces) == Ok::<Seq<u8>, Seq<char>>(
        seq![v[0]] + (seq![v[1]] + (seq![v[2]] + (seq![v[3]] + (seq![v[4]] + (seq![v[5]]
            + Seq::<u8>::empty()))))),
    ));
    assert(seq![v[0]] + (seq![v[1]] + (seq![v[2]] + (seq![v[3]] + (seq![v[4]] + (seq![v[5]]
        + Seq::<u8>::empty()))))) =~= v);
}

} // verus!
