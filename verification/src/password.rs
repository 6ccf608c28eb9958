//! Password strength rules: length bounds and required character classes.

use vstd::prelude::*;
use vstd::string::StrSliceExecFns;
use vstd::string::StringSliceAdditionalSpecFns;

use crate::constants::{PASSWORD_MAX, PASSWORD_MIN};
use crate::errors::ValidationError;
use crate::primitives::{
    char_is_lowercase, char_is_numeric, char_is_uppercase, lowercase_char, numeric_char,
    uppercase_char,
};

verus! {

/// Whether a character is ASCII punctuation: one of the four ASCII ranges
/// `!..=/`, `:..=@`, `[..=`` ` and `{..=~`.
pub open spec fn punctuation_char(c: char) -> bool {
    (0x21 <= c as u32 && c as u32 <= 0x2f) || (0x3a <= c as u32 && c as u32 <= 0x40) || (0x5b
        <= c as u32 && c as u32 <= 0x60) || (0x7b <= c as u32 && c as u32 <= 0x7e)
}

/// Tests `punctuation_char` on a concrete character.
fn char_is_punctuation(c: char) -> (r: bool)
    ensures
        r == punctuation_char(c),
{
    let u = c as u32;
    (0x21 <= u && u <= 0x2f) || (0x3a <= u && u <= 0x40) || (0x5b <= u && u <= 0x60) || (0x7b <= u
        && u <= 0x7e)
}

/// Whether some character among the first `n` is lowercase.
pub open spec fn has_lowercase_in(s: Seq<char>, n: int) -> bool {
    exists|j: int| 0 <= j < n && lowercase_char(s[j])
}

/// Whether some character among the first `n` counts as uppercase: not
/// lowercase, and uppercase.  The classes are tested in this order, so each
/// character counts for at most one of them.
pub open spec fn has_uppercase_in(s: Seq<char>, n: int) -> bool {
    exists|j: int| 0 <= j < n && !lowercase_char(s[j]) && uppercase_char(s[j])
}

/// Whether some character among the first `n` counts as a number: neither
/// lowercase nor uppercase, and numeric.
pub open spec fn has_number_in(s: Seq<char>, n: int) -> bool {
    exists|j: int|
        0 <= j < n && !lowercase_char(s[j]) && !uppercase_char(s[j]) && numeric_char(s[j])
}

/// Whether some character among the first `n` counts as a symbol: in none of
/// the previous classes, and ASCII punctuation.
pub open spec fn has_symbol_in(s: Seq<char>, n: int) -> bool {
    exists|j: int|
        0 <= j < n && !lowercase_char(s[j]) && !uppercase_char(s[j]) && !numeric_char(s[j])
            && punctuation_char(s[j])
}

/// Whether a password's byte length lies within the accepted bounds.
pub open spec fn password_length_ok(s: &str) -> bool {
    PASSWORD_MIN <= s.spec_bytes().len() <= PASSWORD_MAX
}

/// Whether a password meets every strength rule.
pub open spec fn password_strong(s: &str) -> bool {
    &&& password_length_ok(s)
    &&& has_lowercase_in(s@, s@.len() as int)
    &&& has_uppercase_in(s@, s@.len() as int)
    &&& has_number_in(s@, s@.len() as int)
    &&& has_symbol_in(s@, s@.len() as int)
}

/// Checks the strength rules on a password: byte-length bounds first, then
/// one required character from each class, reported in a fixed order.
/// Accepts exactly the passwords that `password_strong` admits.
pub fn verify_password(password: &str) -> (r: Result<(), ValidationError>)
    ensures
        r matches Ok(u) <==> password_strong(password),
        r == Err::<(), ValidationError>(ValidationError::PasswordTooShort) <==> password.spec_bytes().len() < PASSWORD_MIN,
        r == Err::<(), ValidationError>(ValidationError::PasswordTooLong) <==> password.spec_bytes().len() > PASSWORD_MAX,
        r == Err::<(), ValidationError>(ValidationError::MissingLowercase) <==> (
        password_length_ok(password) && !has_lowercase_in(password@, password@.len() as int)),
        r == Err::<(), ValidationError>(ValidationError::MissingUppercase) <==> (
        password_length_ok(password) && has_lowercase_in(password@, password@.len() as int)
            && !has_uppercase_in(password@, password@.len() as int)),
        r == Err::<(), ValidationError>(ValidationError::MissingNumber) <==> (password_length_ok(
            password,
        ) && has_lowercase_in(password@, password@.len() as int) && has_uppercase_in(
            password@,
            password@.len() as int,
        ) && !has_number_in(password@, password@.len() as int)),
        r == Err::<(), ValidationError>(ValidationError::MissingSymbol) <==> (password_length_ok(
            password,
        ) && has_lowercase_in(password@, password@.len() as int) && has_uppercase_in(
            password@,
            password@.len() as int,
        ) && has_number_in(password@, password@.len() as int) && !has_symbol_in(
            password@,
            password@.len() as int,
        )),
{
    let byte_len = password.as_bytes().len();
    if byte_len < PASSWORD_MIN {
        return Err(ValidationError::PasswordTooShort);
    }
    if byte_len > PASSWORD_MAX {
        return Err(ValidationError::PasswordTooLong);
    }

    let mut contains_lowercase = false;
    let mut contains_uppercase = false;
    let mut contains_number = false;
    let mut contains_symbol = false;

    let len = password.unicode_len();
    let mut i: usize = 0;
    while i < len
        invariant
            i <= len,
            len == password@.len(),
            contains_lowercase == has_lowercase_in(password@, i as int),
            contains_uppercase == has_uppercase_in(password@, i as int),
            contains_number == has_number_in(password@, i as int),
            contains_symbol == has_symbol_in(password@, i as int),
        decreases len - i,
    {
        let c = password.get_char(i);
        if char_is_lowercase(c) {
            contains_lowercase = true;
        } else if char_is_uppercase(c) {
            contains_uppercase = true;
        } else if char_is_numeric(c) {
            contains_number = true;
        } else if char_is_punctuation(c) {
            contains_symbol = true;
        }
        i = i + 1;
    }

    if !contains_lowercase {
        Err(ValidationError::MissingLowercase)
    } else if !contains_uppercase {
        Err(ValidationError::MissingUppercase)
    } else if !contains_number {
        Err(ValidationError::MissingNumber)
    } else if !contains_symbol {
        Err(ValidationError::MissingSymbol)
    } else {
        Ok(())
    }
}

} // verus!
