//! Unique identifiers.

use crate::draw::Position;
use crate::text::write_str;
use std::fmt::{Error, Formatter};
use vstd::prelude::*;

verus! {

/// The `i`-th of the 32 hexadecimal digits of a number, the most significant
/// one first.
pub open spec fn digit(bits: u128, i: int) -> int {
    (bits as int / vstd::arithmetic::power::pow(16, (31 - i) as nat)) % 16
}

/// The lower case character of a hexadecimal digit.
pub open spec fn hex_char(d: int) -> char {
    seq!['0', '1', '2', '3', '4', '5', '6', '7', '8', '9', 'a', 'b', 'c', 'd', 'e', 'f'][d]
}

/// The characters of the digits from `lo` up to but not with `hi`.
pub open spec fn hex_chars(bits: u128, lo: int, hi: int) -> Seq<char> {
    Seq::new((hi - lo) as nat, |i: int| hex_char(digit(bits, lo + i)))
}

/// The text of an identifier: its digits in groups of 8, 4, 4, 4 and 12.
pub open spec fn hyphenated(bits: u128) -> Seq<char> {
    hex_chars(bits, 0, 8) + seq!['-'] + hex_chars(bits, 8, 12) + seq!['-'] + hex_chars(
        bits,
        12,
        16,
    ) + seq!['-'] + hex_chars(bits, 16, 20) + seq!['-'] + hex_chars(bits, 20, 32)
}

/// Whether the digits mark a random identifier (version 4) of the RFC 4122
/// variant.
pub open spec fn is_random_uuid(bits: u128) -> bool {
    &&& digit(bits, 12) == 4
    &&& 8 <= digit(bits, 16) < 12
}

/// The value of a hexadecimal digit's lower case character.
pub open spec fn hex_value(c: char) -> int {
    if '0' <= c <= '9' {
        c as int - '0' as int
    } else {
        c as int - 'a' as int + 10
    }
}

/// The number that a text of hexadecimal digits stands for. Hyphens do not
/// count.
pub open spec fn read_bits(text: Seq<char>) -> int
    decreases text.len(),
{
    if text.len() == 0 {
        0
    } else if text.last() == '-' {
        read_bits(text.drop_last())
    } else {
        16 * read_bits(text.drop_last()) + hex_value(text.last())
    }
}

/// Calls `uuid::Uuid::new_v4`, and `as_u128` on what it gives.
///
/// Claimed: the identifier has the version and the variant of a random one.
/// The other bits are random, and nothing is said of them. The positions only
/// tell one draw from another, the generator does not get them. The call panics
/// only on a system that offers no randomness.
#[verifier::external_body]
fn new_v4(at: Position) -> (drawn: (u128, Position))
    ensures
        is_random_uuid(drawn.0),
{
    (uuid::Uuid::new_v4().as_u128(), at)
}

/// Whether the bits are those of an identifier that `uuid::Uuid::new_v4` gave
/// on the first draw of a run.
pub closed spec fn is_new_uuid(bits: u128) -> bool {
    exists|to: Position| #[trigger]
        call_ensures(new_v4, (crate::draw::first_position(),), (bits, to))
}

/// The bits of a new identifier are what a call of `uuid::Uuid::new_v4` gave,
/// with no call before it in its run.
proof fn new_uuid_is_drawn(bits: u128) -> (to: Position)
    requires
        is_new_uuid(bits),
    ensures
        call_ensures(new_v4, (crate::draw::first_position(),), (bits, to)),
{
    choose|to: Position| #[trigger]
        call_ensures(new_v4, (crate::draw::first_position(),), (bits, to))
}

/// Formats a `uuid::Uuid` with its `std::fmt::LowerHex`.
///
/// Claimed: the text is that of the 32 lower case hexadecimal digits in groups
/// of 8, 4, 4, 4 and 12, with a hyphen between two groups.
#[verifier::external_body]
fn lower_hex(bits: u128) -> (text: String)
    ensures
        text@ == hyphenated(bits),
{
    format!("{:x}", uuid::Uuid::from_u128(bits))
}

/// A unique identifier.
#[derive(Clone, Copy, Eq, Hash, Ord, PartialEq, PartialOrd, Structural)]
pub struct Uid(pub(crate) u128);

impl View for Uid {
    type V = u128;

    closed spec fn view(&self) -> u128 {
        self.0
    }
}

pub(crate) proof fn lemma_determined_by_bits(a: Uid, b: Uid)
    requires
        a@ == b@,
    ensures
        a == b,
{
}

impl Uid {
    /// Returns a new, random `Uid`.
    pub fn new() -> (uid: Self)
        ensures
            is_new_uuid(uid@),
            is_random_uuid(uid@),
    {
        Self::default()
    }

    /// Returns the `Uid` with the bits that `source` gives.
    pub fn draw<F: Fn() -> u128>(source: F) -> (uid: Self)
        requires
            call_requires(source, ()),
        ensures
            call_ensures(source, (), uid@),
    {
        Self::from_u128(source())
    }

    /// Returns the `Uid` with the bits that `source` gives on the draw from a
    /// position, and the position behind it.
    pub fn draw_from<F: Fn(Position) -> (u128, Position)>(source: F, from: Position) -> (drawn: (
        Self,
        Position,
    ))
        requires
            call_requires(source, (from,)),
        ensures
            call_ensures(source, (from,), (drawn.0@, drawn.1)),
    {
        let (bits, to) = source(from);
        (Self::from_u128(bits), to)
    }

    /// Returns the `Uid` with the given bits.
    pub fn from_u128(bits: u128) -> (uid: Self)
        ensures
            uid@ == bits,
    {
        Uid(bits)
    }

    /// Returns the bits of this `Uid`.
    pub fn as_u128(&self) -> (bits: u128)
        ensures
            bits == self@,
    {
        self.0
    }

    /// Returns the text of this `Uid`.
    pub fn to_string(&self) -> (text: String)
        ensures
            text@ == hyphenated(self@),
    {
        lower_hex(self.0)
    }
}

impl std::fmt::Display for Uid {
    /// Writes the text of this `Uid`.
    fn fmt(&self, f: &mut Formatter<'_>) -> (result: Result<(), Error>)
        ensures
            result is Ok ==> crate::text::written(*final(f)) == crate::text::written(*old(f))
                + hyphenated(self@),
    {
        write_str(f, lower_hex(self.0).as_str())
    }
}

impl std::fmt::Debug for Uid {
    /// Writes the text of this `Uid`.
    fn fmt(&self, f: &mut Formatter<'_>) -> (result: Result<(), Error>)
        ensures
            result is Ok ==> crate::text::written(*final(f)) == crate::text::written(*old(f))
                + hyphenated(self@),
    {
        write_str(f, lower_hex(self.0).as_str())
    }
}

impl Default for Uid {
    /// Returns a new, random `Uid`.
    fn default() -> (uid: Self)
        ensures
            is_new_uuid(uid@),
            is_random_uuid(uid@),
    {
        let (uid, _) = Self::draw_from(new_v4, Position::first());
        uid
    }
}

} // verus!
