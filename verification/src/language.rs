//! The closed enumeration of mnemonic languages and its integer code
//! mapping.  An out-of-range code is a typed error, never a default.

use vstd::prelude::*;
use crate::errors::EnumError;

verus! {

/// The eight languages a mnemonic phrase may use, in the order of their
/// external integer codes (English is 0, Spanish is 7).
#[derive(Debug, Clone, Copy, PartialEq, Eq, Structural)]
pub enum LanguageCode {
    English,
    ChineseSimplified,
    ChineseTraditional,
    French,
    Italian,
    Japanese,
    Korean,
    Spanish,
}

impl LanguageCode {
    /// The integer code of this language.
    pub open spec fn as_int(self) -> int {
        match self {
            LanguageCode::English => 0,
            LanguageCode::ChineseSimplified => 1,
            LanguageCode::ChineseTraditional => 2,
            LanguageCode::French => 3,
            LanguageCode::Italian => 4,
            LanguageCode::Japanese => 5,
            LanguageCode::Korean => 6,
            LanguageCode::Spanish => 7,
        }
    }

    /// Maps an external integer code to the language it names, or `None`
    /// for any code outside the eight-member enumeration.
    pub fn from_code(code: i32) -> (r: Option<LanguageCode>)
        ensures
            r is Some <==> 0 <= code <= 7,
            r matches Some(l) ==> l.as_int() == code as int,
    {
        match code {
            0 => Some(LanguageCode::English),
            1 => Some(LanguageCode::ChineseSimplified),
            2 => Some(LanguageCode::ChineseTraditional),
            3 => Some(LanguageCode::French),
            4 => Some(LanguageCode::Italian),
            5 => Some(LanguageCode::Japanese),
            6 => Some(LanguageCode::Korean),
            7 => Some(LanguageCode::Spanish),
            _ => None,
        }
    }

    /// The integer code of this language, as exec code.
    pub fn code(self) -> (r: i32)
        ensures
            r as int == self.as_int(),
    {
        match self {
            LanguageCode::English => 0,
            LanguageCode::ChineseSimplified => 1,
            LanguageCode::ChineseTraditional => 2,
            LanguageCode::French => 3,
            LanguageCode::Italian => 4,
            LanguageCode::Japanese => 5,
            LanguageCode::Korean => 6,
            LanguageCode::Spanish => 7,
        }
    }
}

/// Maps an external integer code to its language, or fails with
/// `InvalidLanguageCode` for any code outside the enumeration.  Every
/// mnemonic operation validates its language through this function, so an
/// out-of-range code can never silently default to a language.
pub fn require_language(code: i32) -> (r: Result<LanguageCode, EnumError>)
    ensures
        r is Ok <==> 0 <= code <= 7,
        r matches Ok(l) ==> l.as_int() == code as int,
        r matches Err(e) ==> e == (EnumError::InvalidLanguageCode { code }),
{
    match LanguageCode::from_code(code) {
        Some(l) => Ok(l),
        None => Err(EnumError::InvalidLanguageCode { code }),
    }
}

} // verus!
