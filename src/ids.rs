//! 128-bit identifiers and their canonical text form.
use vstd::prelude::*;

verus! {

/// A UUID held as its 128-bit big-endian value. The all-zero value is the
/// nil UUID, which stands for "nothing" (for instance "no image").
#[derive(Clone, Copy, Debug, PartialEq, Eq, Structural, Hash)]
pub struct Uuid {
    pub value: u128,
}

/// Lowercase hexadecimal digit for a nibble.
pub open spec fn hex_digit(n: int) -> char {
    seq!['0', '1', '2', '3', '4', '5', '6', '7', '8', '9', 'a', 'b', 'c', 'd', 'e', 'f'][n]
}

/// The `d`-th hex digit (0 = most significant) of a 128-bit value.
pub open spec fn nibble(v: u128, d: int) -> int {
    ((v >> ((4 * (31 - d)) as u128)) & 15u128) as int
}

/// Index of the hex digit shown at position `i` of the hyphenated form.
pub open spec fn digit_at(i: int) -> int {
    if i < 8 {
        i
    } else if i < 13 {
        i - 1
    } else if i < 18 {
        i - 2
    } else if i < 23 {
        i - 3
    } else {
        i - 4
    }
}

/// The hyphenated lowercase form `xxxxxxxx-xxxx-xxxx-xxxx-xxxxxxxxxxxx`.
pub open spec fn hyphenated(v: u128) -> Seq<char> {
    Seq::new(
        36,
        |i: int|
            if i == 8 || i == 13 || i == 18 || i == 23 {
                '-'
            } else {
                hex_digit(nibble(v, digit_at(i)))
            },
    )
}

/// Relies on uuid's hyphenated `Display`: 32 lowercase hex digits of the
/// big-endian value, in groups of 8-4-4-4-12 joined by `-`.
#[verifier::external_body]
fn hyphenated_text(v: u128) -> (r: String)
    ensures
        r@ == hyphenated(v),
{
    uuid::Uuid::from_u128(v).hyphenated().to_string()
}

/// Relies on uuid's `Uuid::new_v4`: random bits with the version nibble set
/// to 4 and the variant bits set to `10`. It panics only when the operating
/// system's random source fails.
#[verifier::external_body]
fn random_v4() -> (r: u128)
    ensures
        (r >> 76u128) & 15u128 == 4u128,
        (r >> 62u128) & 3u128 == 2u128,
{
    uuid::Uuid::new_v4().as_u128()
}

impl Uuid {
    pub open spec fn is_nil_spec(&self) -> bool {
        self.value == 0
    }

    /// The nil UUID.
    pub fn nil() -> (r: Uuid)
        ensures
            r.is_nil_spec(),
    {
        Uuid { value: 0 }
    }

    pub fn from_u128(value: u128) -> (r: Uuid)
        ensures
            r.value == value,
    {
        Uuid { value }
    }

    pub fn as_u128(&self) -> (r: u128)
        ensures
            r == self.value,
    {
        self.value
    }

    #[verifier::when_used_as_spec(is_nil_spec)]
    pub fn is_nil(&self) -> (r: bool)
        ensures
            r == self.is_nil_spec(),
    {
        self.value == 0
    }

    /// A fresh random (version 4) UUID; it is never nil.
    pub fn new_v4() -> (r: Uuid)
        ensures
            !r.is_nil(),
            (r.value >> 76u128) & 15u128 == 4u128,
    {
        let v = random_v4();
        assert(v != 0) by (bit_vector)
            requires
                (v >> 76u128) & 15u128 == 4u128,
        ;
        Uuid { value: v }
    }

    /// The hyphenated lowercase text of this UUID.
    pub fn to_text(&self) -> (r: String)
        ensures
            r@ == hyphenated(self.value),
    {
        hyphenated_text(self.value)
    }
}

} // verus!
