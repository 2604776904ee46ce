//! Identifiers of collections and databases.
use vstd::prelude::*;

verus! {

/// What is wrong with a request that the server refuses by itself.
#[derive(Debug, Clone, Copy, PartialEq, Eq)]
pub enum ValidationError {
    /// The collection id in the path spells no UUID.
    CollectionId,
}

/// The value of a hexadecimal digit of either case, or -1 for any other
/// character.
pub open spec fn hex_digit(c: char) -> int {
    if '0' <= c <= '9' {
        c as int - '0' as int
    } else if 'a' <= c <= 'f' {
        c as int - 'a' as int + 10
    } else if 'A' <= c <= 'F' {
        c as int - 'A' as int + 10
    } else {
        -1
    }
}

/// The number that hexadecimal digits spell, the most significant first.
pub open spec fn hex_number(digits: Seq<char>) -> int
    decreases digits.len(),
{
    if digits.len() == 0 {
        0
    } else {
        16 * hex_number(digits.drop_last()) + hex_digit(digits.last())
    }
}

/// `text` with hyphens after its 8th, 12th, 16th and 20th character taken out,
/// if that is where it has them.
pub open spec fn without_hyphens(text: Seq<char>) -> Option<Seq<char>> {
    if text.len() == 36 && text[8] == '-' && text[13] == '-' && text[18] == '-' && text[23] == '-' {
        Some(
            text.subrange(0, 8) + text.subrange(9, 13) + text.subrange(14, 18) + text.subrange(
                19,
                23,
            ) + text.subrange(24, 36),
        )
    } else {
        None
    }
}

/// `text` is `urn:uuid:`, in letters of either case.
pub open spec fn is_urn_prefix(text: Seq<char>) -> bool {
    &&& text.len() == 9
    &&& text[0] == 'u' || text[0] == 'U'
    &&& text[1] == 'r' || text[1] == 'R'
    &&& text[2] == 'n' || text[2] == 'N'
    &&& text[3] == ':'
    &&& text[4] == 'u' || text[4] == 'U'
    &&& text[5] == 'u' || text[5] == 'U'
    &&& text[6] == 'i' || text[6] == 'I'
    &&& text[7] == 'd' || text[7] == 'D'
    &&& text[8] == ':'
}

/// The digits of a UUID, taken out of one of its four spellings: the digits
/// alone, hyphenated, hyphenated in braces, and hyphenated as a URN.
pub open spec fn uuid_digits(text: Seq<char>) -> Option<Seq<char>> {
    if text.len() == 32 {
        Some(text)
    } else if text.len() == 38 && text[0] == '{' && text[37] == '}' {
        without_hyphens(text.subrange(1, 37))
    } else if text.len() == 45 && is_urn_prefix(text.subrange(0, 9)) {
        without_hyphens(text.subrange(9, 45))
    } else {
        without_hyphens(text)
    }
}

/// `text` spells a UUID.
pub open spec fn is_uuid(text: Seq<char>) -> bool {
    match uuid_digits(text) {
        Some(digits) => forall|i: int|
            0 <= i < digits.len() ==> hex_digit(#[trigger] digits[i]) >= 0,
        None => false,
    }
}

/// The 128-bit number of the UUID that `text` spells.
pub open spec fn uuid_number(text: Seq<char>) -> int
    recommends
        is_uuid(text),
{
    hex_number(uuid_digits(text)->0)
}

/// `id` is a UUID of version 4: the version field, its bits 76 to 79, holds 4,
/// and the variant field, its bits 62 and 63, holds 2.
pub open spec fn is_version_4(id: u128) -> bool {
    &&& id / 0x1000_0000_0000_0000_0000 % 16 == 4
    &&& id / 0x4000_0000_0000_0000 % 4 == 2
}

/// `uuid::Error`, which says why a text spells no UUID. It is carried, not read.
#[verifier::external_type_specification]
#[verifier::external_body]
pub struct ExUuidError(uuid::Error);

/// `uuid::Uuid::parse_str`: it reads the four spellings of a UUID, takes digits
/// and the URN prefix in either case, and refuses every other text. The UUID is
/// given by its 128-bit number, the first digit the most significant. Nothing is
/// said of what the error holds.
#[verifier::external_body]
fn parse_uuid(text: &str) -> (id: Result<u128, uuid::Error>)
    ensures
        match id {
            Ok(number) => is_uuid(text@) && number == uuid_number(text@),
            Err(_) => !is_uuid(text@),
        },
{
    match uuid::Uuid::parse_str(text) {
        Ok(id) => Ok(id.as_u128()),
        Err(error) => Err(error),
    }
}

/// `uuid::Uuid::new_v4`: a version 4 UUID, by its 128-bit number. The other
/// bits are random, so nothing is said of them. It panics where the system has
/// no random numbers to give.
#[verifier::external_body]
fn new_uuid_v4() -> (id: u128)
    ensures
        is_version_4(id),
{
    uuid::Uuid::new_v4().as_u128()
}

/// The id of a collection: a UUID, as the number that its digits spell.
#[derive(Debug, Clone, Copy, PartialEq, Eq)]
pub struct CollectionUuid(pub u128);

impl CollectionUuid {
    /// The id that `text` spells, if it spells one.
    pub open spec fn spelled_by(text: Seq<char>) -> Option<CollectionUuid> {
        if is_uuid(text) {
            Some(CollectionUuid(uuid_number(text) as u128))
        } else {
            None
        }
    }

    /// Reads the id that `text` spells.
    pub fn from_str(text: &str) -> (id: Result<CollectionUuid, ValidationError>)
        ensures
            id is Ok <==> is_uuid(text@),
            match id {
                Ok(read) => read.0 == uuid_number(text@),
                Err(error) => error == ValidationError::CollectionId,
            },
            match Self::spelled_by(text@) {
                Some(spelled) => id == Ok::<CollectionUuid, ValidationError>(spelled) && spelled.0
                    == uuid_number(text@),
                None => id == Err::<CollectionUuid, ValidationError>(ValidationError::CollectionId),
            },
    {
        match parse_uuid(text) {
            Ok(number) => Ok(CollectionUuid(number)),
            Err(_) => Err(ValidationError::CollectionId),
        }
    }
}

/// The id of a database: a UUID, as the number that its digits spell.
#[derive(Debug, Clone, Copy, PartialEq, Eq)]
pub struct DatabaseUuid(pub u128);

impl DatabaseUuid {
    /// This id is a number that was drawn at random.
    pub closed spec fn drawn(self) -> bool {
        call_ensures(new_uuid_v4, (), self.0)
    }

    /// A fresh random id.
    pub fn new_v4() -> (id: DatabaseUuid)
        ensures
            is_version_4(id.0),
            id.drawn(),
    {
        DatabaseUuid(new_uuid_v4())
    }
}

/// A fresh id of a database is always what `uuid::Uuid::new_v4` drew.
proof fn fresh_ids_are_drawn(id: DatabaseUuid)
    requires
        call_ensures(DatabaseUuid::new_v4, (), id),
    ensures
        call_ensures(new_uuid_v4, (), id.0),
        is_version_4(id.0),
{
}

/// An id of a database counts as drawn only if `uuid::Uuid::new_v4` drew it.
proof fn drawn_ids_are_drawn(id: DatabaseUuid)
    requires
        id.drawn(),
    ensures
        call_ensures(new_uuid_v4, (), id.0),
{
}

/// A text of 32 characters spells a UUID exactly where each of them is a digit or
/// a letter from a to f, of either case.
pub proof fn digits_spell_a_uuid(text: Seq<char>)
    requires
        text.len() == 32,
    ensures
        is_uuid(text) <==> forall|i: int|
            0 <= i < 32 ==> {
                ||| '0' <= #[trigger] text[i] <= '9'
                ||| 'a' <= text[i] <= 'f'
                ||| 'A' <= text[i] <= 'F'
            },
{
    assert(uuid_digits(text) == Some(text));
    if is_uuid(text) {
        let digits = uuid_digits(text)->0;
        assert forall|i: int| 0 <= i < 32 implies {
            ||| '0' <= #[trigger] text[i] <= '9'
            ||| 'a' <= text[i] <= 'f'
            ||| 'A' <= text[i] <= 'F'
        } by {
            assert(hex_digit(digits[i]) >= 0);
        }
    }
}

/// A text that spells a UUID holds 32 digits.
pub proof fn uuid_has_32_digits(text: Seq<char>)
    requires
        is_uuid(text),
    ensures
        uuid_digits(text) is Some,
        uuid_digits(text)->0.len() == 32,
{
}

/// Digits spell a number of as many hexadecimal digits.
proof fn hex_number_is_bounded(digits: Seq<char>)
    requires
        forall|i: int| 0 <= i < digits.len() ==> hex_digit(#[trigger] digits[i]) >= 0,
    ensures
        0 <= hex_number(digits) < vstd::arithmetic::power::pow(16, digits.len()),
    decreases digits.len(),
{
    reveal(vstd::arithmetic::power::pow);
    if digits.len() > 0 {
        let front = digits.drop_last();
        assert forall|i: int| 0 <= i < front.len() implies hex_digit(#[trigger] front[i]) >= 0 by {
            assert(front[i] == digits[i]);
        }
        hex_number_is_bounded(front);
        assert(hex_digit(digits[digits.len() - 1]) >= 0);
    }
}

/// The number of a UUID fits in 128 bits.
pub proof fn uuid_number_fits(text: Seq<char>)
    requires
        is_uuid(text),
    ensures
        0 <= uuid_number(text) <= u128::MAX,
{
    uuid_has_32_digits(text);
    hex_number_is_bounded(uuid_digits(text)->0);
    assert(vstd::arithmetic::power::pow(16, 32) == u128::MAX + 1) by {
        reveal_with_fuel(vstd::arithmetic::power::pow, 33);
    }
}

/// A text is the id of a collection exactly where it spells a UUID, and the id is
/// then that UUID.
pub proof fn ids_are_uuids(text: Seq<char>)
    ensures
        CollectionUuid::spelled_by(text) is Some <==> is_uuid(text),
        is_uuid(text) ==> (CollectionUuid::spelled_by(text)->0).0 == uuid_number(text),
{
    if is_uuid(text) {
        uuid_number_fits(text);
    }
}

/// Two texts of digits alone that name the same collection differ at most in the
/// case of their letters.
pub proof fn ids_tell_digits_apart(a: Seq<char>, b: Seq<char>, i: int)
    requires
        a.len() == 32,
        b.len() == 32,
        is_uuid(a),
        is_uuid(b),
        uuid_number(a) == uuid_number(b),
        0 <= i < 32,
    ensures
        hex_digit(a[i]) == hex_digit(b[i]),
{
    hex_number_is_injective(a, b, i);
}

/// Numbers of equally many digits are equal only if all digits are.
proof fn hex_number_is_injective(a: Seq<char>, b: Seq<char>, i: int)
    requires
        a.len() == b.len(),
        forall|k: int| 0 <= k < a.len() ==> hex_digit(#[trigger] a[k]) >= 0,
        forall|k: int| 0 <= k < b.len() ==> hex_digit(#[trigger] b[k]) >= 0,
        hex_number(a) == hex_number(b),
        0 <= i < a.len(),
    ensures
        hex_digit(a[i]) == hex_digit(b[i]),
    decreases a.len(),
{
    let last = a.len() - 1;
    assert(0 <= hex_digit(a[last]) < 16 && 0 <= hex_digit(b[last]) < 16);
    assert(hex_number(a.drop_last()) == hex_number(b.drop_last()));
    if i < last {
        assert forall|k: int| 0 <= k < last implies hex_digit(#[trigger] a.drop_last()[k]) >= 0 by {
            assert(a.drop_last()[k] == a[k]);
        }
        assert forall|k: int| 0 <= k < last implies hex_digit(#[trigger] b.drop_last()[k]) >= 0 by {
            assert(b.drop_last()[k] == b[k]);
        }
        hex_number_is_injective(a.drop_last(), b.drop_last(), i);
        assert(a.drop_last()[i] == a[i] && b.drop_last()[i] == b[i]);
    }
}

/// A text spells a UUID in no other way than these four: by 32 digits alone, by
/// the digits with hyphens, by these in braces, and by these behind `urn:uuid:`.
pub proof fn uuid_has_four_spellings(text: Seq<char>) -> (digits: Seq<char>)
    requires
        is_uuid(text),
    ensures
        digits.len() == 32,
        is_uuid(digits),
        uuid_number(text) == uuid_number(digits),
        ({
            let hyphenated = digits.subrange(0, 8) + "-"@ + digits.subrange(8, 12) + "-"@
                + digits.subrange(12, 16) + "-"@ + digits.subrange(16, 20) + "-"@
                + digits.subrange(20, 32);
            ||| text == digits
            ||| text == hyphenated
            ||| text == "{"@ + hyphenated + "}"@
            ||| text.len() == 45 && is_urn_prefix(text.subrange(0, 9)) && text.subrange(9, 45)
                == hyphenated
        }),
{
    reveal_strlit("-");
    reveal_strlit("{");
    reveal_strlit("}");
    uuid_has_32_digits(text);
    let digits = uuid_digits(text)->0;
    assert(uuid_digits(digits) == Some(digits));
    let hyphenated = digits.subrange(0, 8) + "-"@ + digits.subrange(8, 12) + "-"@ + digits.subrange(
        12,
        16,
    ) + "-"@ + digits.subrange(16, 20) + "-"@ + digits.subrange(20, 32);
    if text.len() == 36 {
        assert(text == hyphenated);
    } else if text.len() == 38 {
        assert(text.subrange(1, 37) == hyphenated);
        assert(text == "{"@ + hyphenated + "}"@);
    } else if text.len() == 45 {
        assert(text.subrange(9, 45) == hyphenated);
    }
    digits
}

/// Any number becomes a version 4 UUID by setting its version and its variant.
pub proof fn version_4_can_be_set(number: u128)
    ensures
        is_version_4(
            number & 0xffff_ffff_ffff_0fff_3fff_ffff_ffff_ffff | 0x4000_8000_0000_0000_0000,
        ),
{
    let id = number & 0xffff_ffff_ffff_0fff_3fff_ffff_ffff_ffff | 0x4000_8000_0000_0000_0000;
    assert(id / 0x1000_0000_0000_0000_0000 % 16 == 4 && id / 0x4000_0000_0000_0000 % 4 == 2)
        by (bit_vector)
        requires
            id == number & 0xffff_ffff_ffff_0fff_3fff_ffff_ffff_ffff
                | 0x4000_8000_0000_0000_0000,
    ;
}

} // verus!
