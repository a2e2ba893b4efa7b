//! IPv4 addresses and their dotted-quad text.

use vstd::prelude::*;
use crate::text::{cut_once, lemma_split_once_joined, split_once};

verus! {

/// An IPv4 address, held as its 32 bits with the first octet highest.
#[derive(Clone, Copy, Debug, PartialEq, Eq, Structural, Hash)]
pub struct Ipv4Address {
    pub bits: u32,
}

/// The decimal digit that stands for `d`.
pub open spec fn digit_char(d: int) -> char {
    if d == 0 {
        '0'
    } else if d == 1 {
        '1'
    } else if d == 2 {
        '2'
    } else if d == 3 {
        '3'
    } else if d == 4 {
        '4'
    } else if d == 5 {
        '5'
    } else if d == 6 {
        '6'
    } else if d == 7 {
        '7'
    } else if d == 8 {
        '8'
    } else {
        '9'
    }
}

/// The number that the decimal digit `c` stands for, or -1 where `c` is no
/// decimal digit.
pub open spec fn digit_value(c: char) -> int {
    if c == '0' {
        0
    } else if c == '1' {
        1
    } else if c == '2' {
        2
    } else if c == '3' {
        3
    } else if c == '4' {
        4
    } else if c == '5' {
        5
    } else if c == '6' {
        6
    } else if c == '7' {
        7
    } else if c == '8' {
        8
    } else if c == '9' {
        9
    } else {
        -1
    }
}

/// Whether `c` is a decimal digit.
pub open spec fn is_digit(c: char) -> bool {
    digit_value(c) >= 0
}

/// The decimal text of `n`, without leading zeros.
pub open spec fn decimal(n: nat) -> Seq<char>
    decreases n,
{
    if n < 10 {
        seq![digit_char(n as int)]
    } else {
        decimal(n / 10).push(digit_char((n % 10) as int))
    }
}

/// The number that a text of decimal digits stands for.
pub open spec fn decimal_value(s: Seq<char>) -> int
    decreases s.len(),
{
    if s.len() == 0 {
        0
    } else {
        decimal_value(s.drop_last()) * 10 + digit_value(s.last())
    }
}

/// What one part of a dotted quad stands for: one to three decimal
/// digits, no leading zero before another digit, at most 255.
pub open spec fn parse_octet(s: Seq<char>) -> Option<u8> {
    let well_formed = {
        &&& 1 <= s.len() <= 3
        &&& forall|i: int| 0 <= i < s.len() ==> is_digit(#[trigger] s[i])
        &&& s.len() > 1 ==> s[0] != '0'
        &&& decimal_value(s) <= 255
    };
    if well_formed {
        Some(decimal_value(s) as u8)
    } else {
        None
    }
}

/// The 32 bits of the address whose octets are `a`, `b`, `c` and `d`.
pub open spec fn bits_of(a: u8, b: u8, c: u8, d: u8) -> u32 {
    (a * 16777216 + b * 65536 + c * 256 + d) as u32
}

/// The first octet of the address with these bits.
pub open spec fn octet_a(bits: u32) -> u8 {
    (bits / 16777216) as u8
}

/// The second octet.
pub open spec fn octet_b(bits: u32) -> u8 {
    ((bits / 65536) % 256) as u8
}

/// The third octet.
pub open spec fn octet_c(bits: u32) -> u8 {
    ((bits / 256) % 256) as u8
}

/// The fourth octet.
pub open spec fn octet_d(bits: u32) -> u8 {
    (bits % 256) as u8
}

/// The dotted-quad text of the address with these bits.
pub open spec fn dotted_quad(bits: u32) -> Seq<char> {
    decimal(octet_a(bits) as nat) + seq!['.'] + decimal(octet_b(bits) as nat) + seq!['.']
        + decimal(octet_c(bits) as nat) + seq!['.'] + decimal(octet_d(bits) as nat)
}

/// The bits of the address that `s` is the dotted quad of: four parts
/// with a dot between them, each one an octet.
pub open spec fn parse_dotted_quad(s: Seq<char>) -> Option<u32> {
    match split_once(s, '.') {
        None => None,
        Some((a, rest_a)) => match split_once(rest_a, '.') {
            None => None,
            Some((b, rest_b)) => match split_once(rest_b, '.') {
                None => None,
                Some((c, d)) => match (
                    parse_octet(a),
                    parse_octet(b),
                    parse_octet(c),
                    parse_octet(d),
                ) {
                    (Some(a), Some(b), Some(c), Some(d)) => Some(bits_of(a, b, c, d)),
                    _ => None,
                },
            },
        },
    }
}

/// Every character of a decimal text is a digit.
pub proof fn lemma_decimal_digits(n: nat)
    ensures
        decimal(n).len() >= 1,
        forall|i: int| 0 <= i < decimal(n).len() ==> is_digit(#[trigger] decimal(n)[i]),
    decreases n,
{
    if n >= 10 {
        lemma_decimal_digits(n / 10);
    }
}

/// A decimal text stands for the number it was written from.
pub proof fn lemma_decimal_value(n: nat)
    ensures
        decimal_value(decimal(n)) == n,
    decreases n,
{
    if n < 10 {
        let s = decimal(n);
        assert(s.drop_last().len() == 0);
        assert(decimal_value(s.drop_last()) == 0);
    } else {
        lemma_decimal_value(n / 10);
        let s = decimal(n);
        assert(s.drop_last() == decimal(n / 10));
    }
}

/// How many digits the decimal text of a number below 1000 has.
pub proof fn lemma_decimal_len(n: nat)
    requires
        n < 1000,
    ensures
        n < 10 ==> decimal(n).len() == 1,
        10 <= n < 100 ==> decimal(n).len() == 2,
        100 <= n ==> decimal(n).len() == 3,
    decreases n,
{
    if n >= 10 {
        lemma_decimal_len(n / 10);
    }
}

/// The decimal text of a number from 10 on does not begin with a zero.
pub proof fn lemma_decimal_leading(n: nat)
    requires
        n >= 10,
    ensures
        decimal(n)[0] != '0',
    decreases n,
{
    lemma_decimal_digits(n / 10);
    if n / 10 >= 10 {
        lemma_decimal_leading(n / 10);
    }
}

/// The decimal text of an octet is read back as that octet.
pub proof fn lemma_parse_octet_decimal(n: u8)
    ensures
        parse_octet(decimal(n as nat)) == Some(n),
        !decimal(n as nat).contains('.'),
{
    let s = decimal(n as nat);
    lemma_decimal_digits(n as nat);
    lemma_decimal_value(n as nat);
    lemma_decimal_len(n as nat);
    if n >= 10 {
        lemma_decimal_leading(n as nat);
    }
    if s.contains('.') {
        let i = choose|i: int| 0 <= i < s.len() && s[i] == '.';
        assert(is_digit(s[i]));
    }
}

/// The octets of an address make up its bits again.
pub proof fn lemma_bits_of_octets(bits: u32)
    ensures
        bits_of(octet_a(bits), octet_b(bits), octet_c(bits), octet_d(bits)) == bits,
{
    assert(bits / 16777216 < 256) by (bit_vector);
    assert(bits == (bits / 16777216) * 16777216 + ((bits / 65536) % 256) * 65536 + ((bits / 256)
        % 256) * 256 + bits % 256) by (bit_vector);
}

/// Four parts without a dot, joined by dots, are read part by part.
pub proof fn lemma_parse_joined(a: Seq<char>, b: Seq<char>, c: Seq<char>, d: Seq<char>)
    requires
        !a.contains('.'),
        !b.contains('.'),
        !c.contains('.'),
    ensures
        parse_dotted_quad(a + seq!['.'] + b + seq!['.'] + c + seq!['.'] + d) == match (
            parse_octet(a),
            parse_octet(b),
            parse_octet(c),
            parse_octet(d),
        ) {
            (Some(a), Some(b), Some(c), Some(d)) => Some(bits_of(a, b, c, d)),
            _ => None,
        },
{
    let rest_b = c + seq!['.'] + d;
    let rest_a = b + seq!['.'] + rest_b;
    assert(a + seq!['.'] + b + seq!['.'] + c + seq!['.'] + d == a + seq!['.'] + rest_a);
    lemma_split_once_joined(a, '.', rest_a);
    lemma_split_once_joined(b, '.', rest_b);
    lemma_split_once_joined(c, '.', d);
}

/// Reading the dotted quad of an address gives that address back.
pub proof fn lemma_parse_dotted_quad_round_trip(bits: u32)
    ensures
        parse_dotted_quad(dotted_quad(bits)) == Some(bits),
{
    let a = octet_a(bits);
    let b = octet_b(bits);
    let c = octet_c(bits);
    let d = octet_d(bits);
    lemma_parse_octet_decimal(a);
    lemma_parse_octet_decimal(b);
    lemma_parse_octet_decimal(c);
    lemma_parse_octet_decimal(d);
    lemma_parse_joined(decimal(a as nat), decimal(b as nat), decimal(c as nat), decimal(d as nat));
    lemma_bits_of_octets(bits);
}

/// The dotted quad of an address holds neither `;` nor a line ending.
pub proof fn lemma_dotted_quad_chars(bits: u32)
    ensures
        forall|i: int|
            0 <= i < dotted_quad(bits).len() ==> is_digit(#[trigger] dotted_quad(bits)[i])
                || dotted_quad(bits)[i] == '.',
        dotted_quad(bits).len() >= 7,
{
    lemma_decimal_digits(octet_a(bits) as nat);
    lemma_decimal_digits(octet_b(bits) as nat);
    lemma_decimal_digits(octet_c(bits) as nat);
    lemma_decimal_digits(octet_d(bits) as nat);
}

fn digit_to_char(d: u8) -> (c: char)
    requires
        d < 10,
    ensures
        c == digit_char(d as int),
{
    if d == 0 {
        '0'
    } else if d == 1 {
        '1'
    } else if d == 2 {
        '2'
    } else if d == 3 {
        '3'
    } else if d == 4 {
        '4'
    } else if d == 5 {
        '5'
    } else if d == 6 {
        '6'
    } else if d == 7 {
        '7'
    } else if d == 8 {
        '8'
    } else {
        '9'
    }
}

fn char_to_digit(c: char) -> (d: Option<u8>)
    ensures
        match d {
            Some(v) => v as int == digit_value(c) && is_digit(c),
            None => !is_digit(c),
        },
{
    if c == '0' {
        Some(0)
    } else if c == '1' {
        Some(1)
    } else if c == '2' {
        Some(2)
    } else if c == '3' {
        Some(3)
    } else if c == '4' {
        Some(4)
    } else if c == '5' {
        Some(5)
    } else if c == '6' {
        Some(6)
    } else if c == '7' {
        Some(7)
    } else if c == '8' {
        Some(8)
    } else if c == '9' {
        Some(9)
    } else {
        None
    }
}

/// Appends the decimal text of `n` to `out`.
pub fn push_decimal(out: &mut Vec<char>, n: u64)
    ensures
        final(out)@ == old(out)@ + decimal(n as nat),
    decreases n,
{
    if n >= 10 {
        push_decimal(out, n / 10);
    }
    let d: u8 = (n % 10) as u8;
    out.push(digit_to_char(d));
    assert(final(out)@ == old(out)@ + decimal(n as nat));
}

/// Reads one part of a dotted quad.
pub fn read_octet(s: &[char]) -> (octet: Option<u8>)
    ensures
        octet == parse_octet(s@),
{
    let n: usize = s.len();
    if n < 1 || n > 3 {
        return None;
    }
    let mut value: u16 = 0;
    let mut i: usize = 0;
    while i < n
        invariant
            n == s@.len(),
            1 <= n <= 3,
            i <= n,
            value == decimal_value(s@.subrange(0, i as int)),
            forall|j: int| 0 <= j < i ==> is_digit(#[trigger] s@[j]),
            value <= 999,
            i < 3 ==> value <= 99,
            i < 2 ==> value <= 9,
            i < 1 ==> value == 0,
        decreases n - i,
    {
        match char_to_digit(s[i]) {
            None => {
                assert(!is_digit(s@[i as int]));
                return None;
            },
            Some(d) => {
                let ghost prefix = s@.subrange(0, i + 1);
                assert(prefix.drop_last() == s@.subrange(0, i as int));
                assert(prefix.last() == s@[i as int]);
                value = value * 10 + d as u16;
            },
        }
        i += 1;
    }
    assert(s@.subrange(0, n as int) == s@);
    if n > 1 && s[0] == '0' {
        return None;
    }
    if value > 255 {
        return None;
    }
    Some(value as u8)
}

impl Ipv4Address {
    /// The address with the octets `a.b.c.d`.
    pub fn new(a: u8, b: u8, c: u8, d: u8) -> (ip: Ipv4Address)
        ensures
            ip.bits == bits_of(a, b, c, d),
    {
        let bits: u32 = (a as u32) * 16777216 + (b as u32) * 65536 + (c as u32) * 256 + (d as u32);
        Ipv4Address { bits }
    }

    /// The four octets of the address, the first one first.
    pub fn octets(&self) -> (o: (u8, u8, u8, u8))
        ensures
            o.0 == octet_a(self.bits),
            o.1 == octet_b(self.bits),
            o.2 == octet_c(self.bits),
            o.3 == octet_d(self.bits),
    {
        (
            (self.bits / 16777216) as u8,
            ((self.bits / 65536) % 256) as u8,
            ((self.bits / 256) % 256) as u8,
            (self.bits % 256) as u8,
        )
    }

    /// The characters of the dotted quad of the address.
    pub fn to_chars(&self) -> (chars: Vec<char>)
        ensures
            chars@ == dotted_quad(self.bits),
    {
        let (a, b, c, d) = self.octets();
        let mut chars: Vec<char> = Vec::new();
        push_decimal(&mut chars, a as u64);
        chars.push('.');
        push_decimal(&mut chars, b as u64);
        chars.push('.');
        push_decimal(&mut chars, c as u64);
        chars.push('.');
        push_decimal(&mut chars, d as u64);
        assert(chars@ == dotted_quad(self.bits));
        chars
    }

    /// The dotted quad of the address.
    pub fn to_string(&self) -> (text: String)
        ensures
            text@ == dotted_quad(self.bits),
    {
        let chars = self.to_chars();
        crate::text::from_chars(chars.as_slice())
    }

    /// Reads a dotted quad given as characters.
    pub fn from_chars(s: &[char]) -> (ip: Option<Ipv4Address>)
        ensures
            match parse_dotted_quad(s@) {
                Some(bits) => ip == Some(Ipv4Address { bits }),
                None => ip.is_none(),
            },
    {
        let (a, rest_a) = match cut_once(s, '.') {
            Some(parts) => parts,
            None => { return None; },
        };
        let (b, rest_b) = match cut_once(rest_a, '.') {
            Some(parts) => parts,
            None => { return None; },
        };
        let (c, d) = match cut_once(rest_b, '.') {
            Some(parts) => parts,
            None => { return None; },
        };
        match (
            read_octet(a),
            read_octet(b),
            read_octet(c),
            read_octet(d),
        ) {
            (Some(a), Some(b), Some(c), Some(d)) => Some(Ipv4Address::new(a, b, c, d)),
            _ => None,
        }
    }

    /// Reads a dotted quad: `Some` exactly where `text` is four octets
    /// with a dot between them.
    pub fn parse(text: &str) -> (ip: Option<Ipv4Address>)
        ensures
            match parse_dotted_quad(text@) {
                Some(bits) => ip == Some(Ipv4Address { bits }),
                None => ip.is_none(),
            },
    {
        let chars = crate::text::to_chars(text);
        Ipv4Address::from_chars(chars.as_slice())
    }
}

} // verus!
