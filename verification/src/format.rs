//! The text conventions of the protocol: decimal and hexadecimal numbers,
//! hexadecimal byte strings, and the `.` that stands for a zero or empty value.

use crate::primitives::{all_zero, Address, H256, U256};
use crate::printer::texts;
use rustc_hex::ToHex;
use vstd::prelude::*;
use vstd::string::StringExecFns;

verus! {

/// The digit, in lower-case hexadecimal, of a number below sixteen.
pub open spec fn digit_char(d: nat) -> char {
    seq!['0', '1', '2', '3', '4', '5', '6', '7', '8', '9', 'a', 'b', 'c', 'd', 'e', 'f'][d as int]
}

/// The decimal numeral of `n`, without leading zeros.
pub open spec fn decimal(n: nat) -> Seq<char>
    decreases n,
{
    if n < 10 {
        seq![digit_char(n)]
    } else {
        decimal(n / 10).push(digit_char(n % 10))
    }
}

/// The lower-case hexadecimal numeral of `n`, without leading zeros.
pub open spec fn hex_of_nat(n: nat) -> Seq<char>
    decreases n,
{
    if n < 16 {
        seq![digit_char(n)]
    } else {
        hex_of_nat(n / 16).push(digit_char(n % 16))
    }
}

/// Two lower-case hexadecimal digits for each byte, in order.
pub open spec fn hex_of_bytes(bytes: Seq<u8>) -> Seq<char>
    decreases bytes.len(),
{
    if bytes.len() == 0 {
        Seq::empty()
    } else {
        hex_of_bytes(bytes.drop_last()).push(digit_char(bytes.last() as nat / 16)).push(
            digit_char(bytes.last() as nat % 16),
        )
    }
}

/// The one-character text that stands for a zero or empty value.
pub open spec fn sentinel() -> Seq<char> {
    seq!['.']
}

/// A byte string as a protocol field: `.` when empty, else its hexadecimal digits.
pub open spec fn bytes_field(bytes: Seq<u8>) -> Seq<char> {
    if bytes.len() == 0 {
        sentinel()
    } else {
        hex_of_bytes(bytes)
    }
}

/// An address or a hash as a protocol field: `.` when all its bytes are zero,
/// else its hexadecimal digits.
pub open spec fn hash_field(bytes: Seq<u8>) -> Seq<char> {
    if all_zero(bytes) {
        sentinel()
    } else {
        hex_of_bytes(bytes)
    }
}

/// A 256-bit integer as a protocol field: `.` for zero, else its hexadecimal numeral.
pub open spec fn number_field(n: nat) -> Seq<char> {
    if n == 0 {
        sentinel()
    } else {
        hex_of_nat(n)
    }
}

/// `true` or `false`.
pub open spec fn bool_field(b: bool) -> Seq<char> {
    if b {
        seq!['t', 'r', 'u', 'e']
    } else {
        seq!['f', 'a', 'l', 's', 'e']
    }
}

/// The digits of a byte string are twice as many as its bytes.
pub proof fn lemma_hex_of_bytes_len(bytes: Seq<u8>)
    ensures
        hex_of_bytes(bytes).len() == 2 * bytes.len(),
    decreases bytes.len(),
{
    if bytes.len() > 0 {
        lemma_hex_of_bytes_len(bytes.drop_last());
    }
}

/// A numeral is never empty, and ends in a digit.
pub proof fn lemma_hex_of_nat_ends_in_digit(n: nat)
    ensures
        hex_of_nat(n).len() >= 1,
        hex_of_nat(n).last() == digit_char(n % 16),
        hex_of_nat(n).last() != '.',
{
}

/// The `.` stands for nothing but a zero or empty value: a byte string is
/// written as `.` only where it is empty, an address or a hash only where all
/// its bytes are zero, a number only where it is zero.
pub proof fn law_sentinel_stands_for_zero_only(bytes: Seq<u8>, n: nat)
    ensures
        bytes_field(bytes) == sentinel() <==> bytes.len() == 0,
        hash_field(bytes) == sentinel() <==> all_zero(bytes),
        number_field(n) == sentinel() <==> n == 0,
{
    lemma_hex_of_bytes_len(bytes);
    lemma_hex_of_nat_ends_in_digit(n);
    assert(sentinel().len() == 1);
    assert(sentinel().last() == '.');
}

/// `String::push` of std: the character is appended at the end, and nothing
/// else of the text changes.
pub assume_specification[ String::push ](s: &mut String, c: char)
    ensures
        final(s)@ == old(s)@.push(c),
;

fn digit(d: u8) -> (c: char)
    requires
        d < 16,
    ensures
        c == digit_char(d as nat),
{
    match d {
        0 => '0',
        1 => '1',
        2 => '2',
        3 => '3',
        4 => '4',
        5 => '5',
        6 => '6',
        7 => '7',
        8 => '8',
        9 => '9',
        10 => 'a',
        11 => 'b',
        12 => 'c',
        13 => 'd',
        14 => 'e',
        _ => 'f',
    }
}

/// The decimal numeral of `n`.
pub fn decimal_string(n: u64) -> (s: String)
    ensures
        s@ == decimal(n as nat),
    decreases n,
{
    if n < 10 {
        let mut s = String::new();
        s.push(digit(n as u8));
        assert(s@ =~= seq![digit_char(n as nat)]);
        s
    } else {
        let mut s = decimal_string(n / 10);
        s.push(digit((n % 10) as u8));
        s
    }
}

/// The lower-case hexadecimal numeral of `n`.
pub fn hex_string(n: u64) -> (s: String)
    ensures
        s@ == hex_of_nat(n as nat),
    decreases n,
{
    if n < 16 {
        let mut s = String::new();
        s.push(digit(n as u8));
        assert(s@ =~= seq![digit_char(n as nat)]);
        s
    } else {
        let mut s = hex_string(n / 16);
        s.push(digit((n % 16) as u8));
        s
    }
}

/// `rustc_hex::ToHex::to_hex` on a byte slice, collected into a `String`: two
/// lower-case hexadecimal digits for each byte, high nibble first, in order.
#[verifier::external_body]
fn bytes_to_hex(bytes: &[u8]) -> (s: String)
    ensures
        s@ == hex_of_bytes(bytes@),
{
    bytes.to_hex::<String>()
}

/// `LowerHex` of `ethereum_types::H256` without the alternate flag: two
/// lower-case hexadecimal digits for each of the 32 bytes, in order.
#[verifier::external_body]
fn h256_lower_hex(hash: &H256) -> (s: String)
    ensures
        s@ == hex_of_bytes(hash@),
{
    format!("{:x}", ethereum_types::H256(hash.0))
}

/// `LowerHex` of `ethereum_types::Address` without the alternate flag: two
/// lower-case hexadecimal digits for each of the 20 bytes, in order.
#[verifier::external_body]
fn address_lower_hex(address: &Address) -> (s: String)
    ensures
        s@ == hex_of_bytes(address@),
{
    format!("{:x}", ethereum_types::Address::from(address.0))
}

/// `LowerHex` of `ethereum_types::U256` without flags: the hexadecimal numeral
/// of the number, lower case, no leading zeros, `0` for zero.
#[verifier::external_body]
fn u256_lower_hex(n: &U256) -> (s: String)
    ensures
        s@ == hex_of_nat(n@),
{
    format!("{:x}", ethereum_types::U256(n.0))
}

/// The text that stands for a zero or empty value.
pub fn sentinel_text() -> (s: String)
    ensures
        s@ == sentinel(),
{
    let mut s = String::new();
    s.push('.');
    assert(s@ =~= sentinel());
    s
}

/// The hexadecimal digits of a byte string, two for each byte.
pub fn hex_text(bytes: &[u8]) -> (s: String)
    ensures
        s@ == hex_of_bytes(bytes@),
{
    bytes_to_hex(bytes)
}

impl H256 {
    /// The 64 hexadecimal digits of the hash, whatever its value.
    pub fn to_hex(&self) -> (s: String)
        ensures
            s@ == hex_of_bytes(self@),
    {
        bytes_to_hex(self.as_bytes())
    }
}

/// The texts of `parts`, in order, with `separator` between each two.
pub open spec fn joined(parts: Seq<Seq<char>>, separator: Seq<char>) -> Seq<char>
    decreases parts.len(),
{
    if parts.len() == 0 {
        Seq::empty()
    } else if parts.len() == 1 {
        parts[0]
    } else {
        joined(parts.drop_last(), separator) + separator + parts.last()
    }
}

/// The texts of `parts`, in order, with `separator` between each two.
pub fn join_texts(parts: &Vec<String>, separator: &str) -> (s: String)
    ensures
        s@ == joined(texts(parts@), separator@),
{
    let mut s = String::new();
    let mut i: usize = 0;
    while i < parts.len()
        invariant
            i <= parts.len(),
            s@ == joined(texts(parts@).take(i as int), separator@),
        decreases parts.len() - i,
    {
        let ghost before = texts(parts@).take(i as int);
        let ghost after = texts(parts@).take(i as int + 1);
        assert(after.drop_last() =~= before);
        assert(after.last() == parts@[i as int]@);
        if i > 0 {
            s.append(separator);
        } else {
            assert(s@ + parts@[i as int]@ =~= parts@[i as int]@);
        }
        s.append(parts[i].as_str());
        i += 1;
    }
    assert(texts(parts@).take(parts@.len() as int) =~= texts(parts@));
    s
}

/// A byte string as a protocol field.
pub fn bytes_text(bytes: &[u8]) -> (s: String)
    ensures
        s@ == bytes_field(bytes@),
        bytes@.len() == 0 ==> s@ == sentinel(),
{
    if bytes.len() == 0 {
        sentinel_text()
    } else {
        bytes_to_hex(bytes)
    }
}

/// An address as a protocol field.
pub fn address_text(address: &Address) -> (s: String)
    ensures
        s@ == hash_field(address@),
        all_zero(address@) ==> s@ == sentinel(),
{
    if address.is_zero() {
        sentinel_text()
    } else {
        address_lower_hex(address)
    }
}

/// A hash as a protocol field.
pub fn h256_text(hash: &H256) -> (s: String)
    ensures
        s@ == hash_field(hash@),
        all_zero(hash@) ==> s@ == sentinel(),
{
    if hash.is_zero() {
        sentinel_text()
    } else {
        h256_lower_hex(hash)
    }
}

/// A 256-bit integer as a protocol field.
pub fn u256_text(n: &U256) -> (s: String)
    ensures
        s@ == number_field(n@),
        n@ == 0 ==> s@ == sentinel(),
{
    if n.is_zero() {
        sentinel_text()
    } else {
        u256_lower_hex(n)
    }
}

/// The hexadecimal numeral of a 256-bit integer, `0` for zero.
pub fn u256_hex(n: &U256) -> (s: String)
    ensures
        s@ == hex_of_nat(n@),
{
    u256_lower_hex(n)
}

/// `true` or `false`.
pub fn bool_text(b: bool) -> (s: String)
    ensures
        s@ == bool_field(b),
{
    let mut s = String::new();
    if b {
        s.push('t');
        s.push('r');
        s.push('u');
        s.push('e');
        assert(s@ =~= bool_field(true));
    } else {
        s.push('f');
        s.push('a');
        s.push('l');
        s.push('s');
        s.push('e');
        assert(s@ =~= bool_field(false));
    }
    s
}

} // verus!
