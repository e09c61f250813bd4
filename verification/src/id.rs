//! Unique identifier types for UML model objects.
//!
//! Identifiers are random (version 4) UUIDs. The library keeps each one as
//! its 128-bit value, which is all that the model logic reads: identifiers
//! are only created, copied and compared.
use vstd::arithmetic::power2::pow2;
use vstd::prelude::*;

verus! {

/// Whether a 128-bit value has the layout of a version 4 UUID: version
/// nibble 4 (bits 76 to 79) and variant bits `10` (bits 62 and 63).
pub open spec fn is_v4_value(value: u128) -> bool {
    &&& (value >> 76u128) & 0xFu128 == 4u128
    &&& (value >> 62u128) & 0x3u128 == 2u128
}

/// A fresh random 128-bit value from `uuid::Uuid::new_v4`. Its source takes
/// random bits and sets the version nibble to 4 and the variant bits to
/// `10`; nothing more is promised of the value, which comes from the
/// operating system's random source.
#[verifier::external_body]
fn random_uuid_value() -> (value: u128)
    ensures
        is_v4_value(value),
{
    uuid::Uuid::new_v4().as_u128()
}

/// The lower-case hexadecimal digit for `n` (`0 <= n < 16`).
pub open spec fn hex_digit(n: int) -> char {
    if n < 10 {
        ((48 + n) as u32) as char
    } else {
        ((87 + n) as u32) as char
    }
}

/// The `k`-th hexadecimal digit (from the most significant) of a 128-bit value.
pub open spec fn nibble_of(value: u128, k: int) -> int {
    (value as int / pow2((4 * (31 - k)) as nat) as int) % 16
}

/// Position of a text character among the 32 hexadecimal digits, skipping
/// the hyphens at text positions 8, 13, 18 and 23.
pub open spec fn digit_index(i: int) -> int {
    if i < 8 {
        i
    } else if i < 13 {
        i - 1
    } else if i < 18 {
        i - 2
    } else if i < 23 {
        i - 3
    } else {
        i - 4
    }
}

/// The hyphenated lower-case text form of a UUID value, in big-endian digit
/// order: `xxxxxxxx-xxxx-xxxx-xxxx-xxxxxxxxxxxx`.
pub open spec fn uuid_text_spec(value: u128) -> Seq<char> {
    Seq::new(
        36,
        |i: int|
            if i == 8 || i == 13 || i == 18 || i == 23 {
                '-'
            } else {
                hex_digit(nibble_of(value, digit_index(i)))
            },
    )
}

/// Formats a UUID value through `uuid::Uuid`'s `Display` implementation,
/// which writes the hyphenated lower-case form of the big-endian bytes.
#[verifier::external_body]
fn uuid_text(value: u128) -> (s: String)
    ensures
        s@ == uuid_text_spec(value),
{
    uuid::Uuid::from_u128(value).to_string()
}

/// The value of the UUID that a text spells, as `uuid::Uuid::parse_str`
/// reads it (simple, hyphenated, braced or URN form), if it spells one.
pub uninterp spec fn uuid_parse_value(text: Seq<char>) -> Option<u128>;

/// Parses a UUID through `uuid::Uuid::parse_str`. Its source accepts only
/// inputs of 32, 36, 38 or 45 bytes, all ASCII, and reads the hyphenated
/// lower-case form back as the value it was written from.
#[verifier::external_body]
fn parse_uuid_value(text: &str) -> (r: Option<u128>)
    ensures
        r == uuid_parse_value(text@),
        r is Some ==> text@.len() == 32 || text@.len() == 36 || text@.len() == 38 || text@.len() == 45,
        forall|v: u128| #[trigger] uuid_text_spec(v) == text@ ==> r == Some(v),
{
    match uuid::Uuid::parse_str(text) {
        Ok(u) => Some(u.as_u128()),
        Err(_) => None,
    }
}

/// A text that does not spell a UUID.
#[derive(Debug, PartialEq, Eq)]
pub struct InvalidIdText {
    /// The text that was read.
    pub text: String,
}

/// Universally unique identifier for UML model objects.
#[derive(Debug, Clone, Copy, PartialEq, Eq, Structural, PartialOrd, Ord, Hash)]
pub struct UmlId {
    /// The 128-bit UUID value.
    pub value: u128,
}

impl UmlId {
    /// Generate a new random identifier.
    pub fn new() -> (id: Self)
        ensures
            is_v4_value(id.value),
    {
        UmlId { value: random_uuid_value() }
    }

    /// The identifier with the given 128-bit value.
    pub fn from_u128(value: u128) -> (id: Self)
        ensures
            id.value == value,
    {
        UmlId { value }
    }

    /// The 128-bit value of this identifier.
    pub fn as_u128(&self) -> (value: u128)
        ensures
            value == self.value,
    {
        self.value
    }

    /// The hyphenated UUID text of this identifier.
    pub fn to_text(&self) -> (s: String)
        ensures
            s@ == uuid_text_spec(self.value),
    {
        uuid_text(self.value)
    }
}

impl UmlId {
    /// The identifier a text spells (in any form `uuid` reads); the
    /// hyphenated text of an identifier reads back as that identifier.
    pub fn parse(text: &str) -> (r: Result<UmlId, InvalidIdText>)
        ensures
            match uuid_parse_value(text@) {
                Some(v) => r == Ok::<UmlId, InvalidIdText>(UmlId { value: v }),
                None => r is Err && r->Err_0.text@ == text@,
            },
            forall|v: u128| #[trigger] uuid_text_spec(v) == text@ ==> r == Ok::<UmlId, InvalidIdText>(UmlId { value: v }),
            r is Ok ==> text@.len() == 32 || text@.len() == 36 || text@.len() == 38 || text@.len() == 45,
    {
        match parse_uuid_value(text) {
            Some(v) => Ok(UmlId { value: v }),
            None => Err(InvalidIdText { text: String::from_str(text) }),
        }
    }
}

impl std::str::FromStr for UmlId {
    type Err = InvalidIdText;

    fn from_str(s: &str) -> (r: Result<UmlId, InvalidIdText>)
        ensures
            match uuid_parse_value(s@) {
                Some(v) => r == Ok::<UmlId, InvalidIdText>(UmlId { value: v }),
                None => r is Err && r->Err_0.text@ == s@,
            },
            forall|v: u128| #[trigger] uuid_text_spec(v) == s@ ==> r == Ok::<UmlId, InvalidIdText>(UmlId { value: v }),
    {
        UmlId::parse(s)
    }
}

impl Default for UmlId {
    /// A fresh random identifier.
    fn default() -> (id: Self)
        ensures
            is_v4_value(id.value),
    {
        UmlId::new()
    }
}

/// Unique identifier for a diagram.
#[derive(Debug, Clone, Copy, PartialEq, Eq, Structural, Hash)]
pub struct DiagramId {
    /// The 128-bit UUID value.
    pub value: u128,
}

impl DiagramId {
    /// Create a new random diagram identifier.
    pub fn new() -> (id: Self)
        ensures
            is_v4_value(id.value),
    {
        DiagramId { value: random_uuid_value() }
    }

    /// The diagram identifier with the given 128-bit value.
    pub fn from_u128(value: u128) -> (id: Self)
        ensures
            id.value == value,
    {
        DiagramId { value }
    }

    /// The hyphenated UUID text of this identifier.
    pub fn to_text(&self) -> (s: String)
        ensures
            s@ == uuid_text_spec(self.value),
    {
        uuid_text(self.value)
    }
}

impl Default for DiagramId {
    /// A fresh random diagram identifier.
    fn default() -> (id: Self)
        ensures
            is_v4_value(id.value),
    {
        DiagramId::new()
    }
}

/// Unique identifier for an edge within a diagram.
#[derive(Debug, Clone, Copy, PartialEq, Eq, Structural, Hash)]
pub struct EdgeId {
    /// The 128-bit UUID value.
    pub value: u128,
}

impl EdgeId {
    /// Create a new random edge identifier.
    pub fn new() -> (id: Self)
        ensures
            is_v4_value(id.value),
    {
        EdgeId { value: random_uuid_value() }
    }

    /// The edge identifier with the given 128-bit value.
    pub fn from_u128(value: u128) -> (id: Self)
        ensures
            id.value == value,
    {
        EdgeId { value }
    }

    /// The hyphenated UUID text of this identifier.
    pub fn to_text(&self) -> (s: String)
        ensures
            s@ == uuid_text_spec(self.value),
    {
        uuid_text(self.value)
    }
}

impl Default for EdgeId {
    /// A fresh random edge identifier.
    fn default() -> (id: Self)
        ensures
            is_v4_value(id.value),
    {
        EdgeId::new()
    }
}

} // verus!
