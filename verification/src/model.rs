//! Currency model: the currency-code enumeration with its canonical string
//! representation, the monetary amount carried by an account balance, and the
//! error raised when an enumeration string is not recognized.

use vstd::prelude::*;
use vstd::string::StringExecFns;

use crate::text::str_eq;

verus! {

/// Currency codes known to the model.
#[derive(Clone, Copy, Debug, PartialEq, Eq, Structural)]
pub enum CurrencyCode {
    BRL,
}

/// A monetary amount. The numeric value is kept in the decimal string form
/// the store delivers it in; the decoder only accepts strings that satisfy
/// [`crate::attribute::is_number_string`].
#[derive(Clone, Debug, PartialEq)]
pub struct Currency {
    pub code: CurrencyCode,
    pub value: String,
}

/// The mathematical image of a [`Currency`].
pub struct CurrencyView {
    pub code: CurrencyCode,
    pub value: Seq<char>,
}

impl View for Currency {
    type V = CurrencyView;

    open spec fn view(&self) -> CurrencyView {
        CurrencyView { code: self.code, value: self.value@ }
    }
}

/// Error raised when a string does not name a member of one of the model's
/// enumerations.
#[derive(Clone, Debug, PartialEq, Eq)]
pub struct ParseEnumError {
    pub message: String,
}

/// The canonical string of a currency code.
pub open spec fn currency_code_str(code: CurrencyCode) -> Seq<char> {
    match code {
        CurrencyCode::BRL => "BRL"@,
    }
}

/// The exact parse relation: which strings name a currency code.
pub open spec fn spec_parse_currency_code(s: Seq<char>) -> Option<CurrencyCode> {
    if s == "BRL"@ {
        Some(CurrencyCode::BRL)
    } else {
        None
    }
}

impl CurrencyCode {
    /// The canonical string of this code.
    pub fn to_string(&self) -> (s: String)
        ensures
            s@ == currency_code_str(*self),
    {
        match self {
            CurrencyCode::BRL => String::from_str("BRL"),
        }
    }

    /// Parses a canonical string back into a code; any other string is
    /// rejected with a descriptive error.
    pub fn from_str(value: &str) -> (r: Result<CurrencyCode, ParseEnumError>)
        ensures
            match spec_parse_currency_code(value@) {
                Some(code) => r == Ok::<CurrencyCode, ParseEnumError>(code),
                None => r matches Err(e) && e.message@ == "Invalid CurrencyCode "@ + value@,
            },
    {
        if str_eq(value, "BRL") {
            Ok(CurrencyCode::BRL)
        } else {
            Err(ParseEnumError { message: String::from_str("Invalid CurrencyCode ").concat(value) })
        }
    }
}

/// Round-trip law: parsing the canonical string of any currency code gives
/// that code back.
pub proof fn lemma_currency_code_round_trip(code: CurrencyCode)
    ensures
        spec_parse_currency_code(currency_code_str(code)) == Some(code),
{
}

/// A string parses as a currency code if and only if it is the canonical
/// string of some code; every other string is rejected.
pub proof fn lemma_currency_code_parse_exhaustive(s: Seq<char>)
    ensures
        spec_parse_currency_code(s) is None <==> forall|code: CurrencyCode|
            currency_code_str(code) != s,
{
    if spec_parse_currency_code(s) is None {
        assert forall|code: CurrencyCode| currency_code_str(code) != s by {
            match code {
                CurrencyCode::BRL => {
                    assert(currency_code_str(code) == "BRL"@);
                },
            }
        }
    } else {
        assert(currency_code_str(CurrencyCode::BRL) == s);
    }
}

} // verus!
