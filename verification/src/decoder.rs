//! The row decoder: turns a stored attribute map into the domain model.
//! Every required attribute must be present with the expected shape; a
//! missing or mismatched attribute, an unparseable date or number and an
//! unknown enumeration string each yield a typed decode error instead of
//! aborting, and the decoder is proved to realize the specified decode
//! relation exactly.

use vstd::prelude::*;
use vstd::string::StringExecFns;

use crate::account::{
    spec_parse_account_status, spec_parse_account_type, Account, AccountBalance, AccountStatus,
    AccountType, AccountView, BalanceView,
};
use crate::attribute::{
    attr_get, attr_lookup, check_number_string, is_number_string, AttributeMap, AttributeValue,
};
use crate::model::{spec_parse_currency_code, Currency, CurrencyCode, CurrencyView, ParseEnumError};
use crate::timestamp::{convert_date, spec_parse_timestamp, Timestamp};

verus! {

/// Why a stored row could not be decoded.
#[derive(Debug, PartialEq, Eq)]
pub enum DecodeError {
    /// A required attribute is absent; carries the key.
    MissingAttribute(String),
    /// An attribute is present with an unexpected shape; carries the key.
    MismatchedAttribute(String),
    /// A number attribute does not hold a decimal numeral; carries the key.
    InvalidNumber(String),
    /// A date attribute does not match the timestamp pattern; carries the
    /// key.
    InvalidDate(String),
    /// An enumeration attribute holds an unknown string.
    InvalidEnum(ParseEnumError),
}

/// The mathematical image of a [`DecodeError`].
pub enum DecodeFault {
    MissingAttribute(Seq<char>),
    MismatchedAttribute(Seq<char>),
    InvalidNumber(Seq<char>),
    InvalidDate(Seq<char>),
    InvalidEnum(Seq<char>),
}

impl View for DecodeError {
    type V = DecodeFault;

    open spec fn view(&self) -> DecodeFault {
        match self {
            DecodeError::MissingAttribute(k) => DecodeFault::MissingAttribute(k@),
            DecodeError::MismatchedAttribute(k) => DecodeFault::MismatchedAttribute(k@),
            DecodeError::InvalidNumber(k) => DecodeFault::InvalidNumber(k@),
            DecodeError::InvalidDate(k) => DecodeFault::InvalidDate(k@),
            DecodeError::InvalidEnum(e) => DecodeFault::InvalidEnum(e.message@),
        }
    }
}

/// The display text of a decode fault.
pub open spec fn fault_text(f: DecodeFault) -> Seq<char> {
    match f {
        DecodeFault::MissingAttribute(k) => "missing attribute "@ + k,
        DecodeFault::MismatchedAttribute(k) => "mismatched attribute "@ + k,
        DecodeFault::InvalidNumber(k) => "invalid number in attribute "@ + k,
        DecodeFault::InvalidDate(k) => "invalid date in attribute "@ + k,
        DecodeFault::InvalidEnum(m) => m,
    }
}

impl DecodeError {
    /// The display text of this error.
    pub fn describe(&self) -> (s: String)
        ensures
            s@ == fault_text(self@),
    {
        match self {
            DecodeError::MissingAttribute(k) => String::from_str("missing attribute ").concat(
                k.as_str(),
            ),
            DecodeError::MismatchedAttribute(k) => String::from_str("mismatched attribute ").concat(
                k.as_str(),
            ),
            DecodeError::InvalidNumber(k) => String::from_str("invalid number in attribute ")
                .concat(k.as_str()),
            DecodeError::InvalidDate(k) => String::from_str("invalid date in attribute ").concat(
                k.as_str(),
            ),
            DecodeError::InvalidEnum(e) => e.message.clone(),
        }
    }
}

/// Extracts the string attribute at `key`: absent keys give `None`, any
/// other shape at the key is a mismatch.
pub fn extract_string(key: &str, values: &AttributeMap) -> (r: Result<Option<String>, DecodeError>)
    ensures
        match attr_get(values@, key@) {
            None => r == Ok::<Option<String>, DecodeError>(None),
            Some(av) => match av {
                AttributeValue::S(s) => r matches Ok(Some(out)) && out@ == s@,
                _ => r matches Err(e) && e@ == DecodeFault::MismatchedAttribute(key@),
            },
        },
{
    match attr_lookup(values, key) {
        None => Ok(None),
        Some(AttributeValue::S(s)) => Ok(Some(s.clone())),
        Some(_) => Err(DecodeError::MismatchedAttribute(String::from_str(key))),
    }
}

/// Extracts the number attribute at `key`, keeping its decimal string form;
/// a number whose text is not a decimal numeral is rejected.
pub fn extract_number(key: &str, values: &AttributeMap) -> (r: Result<Option<String>, DecodeError>)
    ensures
        match attr_get(values@, key@) {
            None => r == Ok::<Option<String>, DecodeError>(None),
            Some(av) => match av {
                AttributeValue::N(s) => if is_number_string(s@) {
                    r matches Ok(Some(out)) && out@ == s@
                } else {
                    r matches Err(e) && e@ == DecodeFault::InvalidNumber(key@)
                },
                _ => r matches Err(e) && e@ == DecodeFault::MismatchedAttribute(key@),
            },
        },
{
    match attr_lookup(values, key) {
        None => Ok(None),
        Some(AttributeValue::N(s)) => {
            if check_number_string(s.as_str()) {
                Ok(Some(s.clone()))
            } else {
                Err(DecodeError::InvalidNumber(String::from_str(key)))
            }
        },
        Some(_) => Err(DecodeError::MismatchedAttribute(String::from_str(key))),
    }
}

/// Extracts the boolean attribute at `key`.
pub fn extract_bool(key: &str, values: &AttributeMap) -> (r: Result<Option<bool>, DecodeError>)
    ensures
        match attr_get(values@, key@) {
            None => r == Ok::<Option<bool>, DecodeError>(None),
            Some(av) => match av {
                AttributeValue::Bool(b) => r == Ok::<Option<bool>, DecodeError>(Some(b)),
                _ => r matches Err(e) && e@ == DecodeFault::MismatchedAttribute(key@),
            },
        },
{
    match attr_lookup(values, key) {
        None => Ok(None),
        Some(AttributeValue::Bool(b)) => Ok(Some(*b)),
        Some(_) => Err(DecodeError::MismatchedAttribute(String::from_str(key))),
    }
}

/// Extracts the list attribute at `key`.
pub fn extract_list<'a>(key: &str, values: &'a AttributeMap) -> (r: Result<
    Option<&'a Vec<AttributeValue>>,
    DecodeError,
>)
    ensures
        match attr_get(values@, key@) {
            None => r matches Ok(out) && out is None,
            Some(av) => match av {
                AttributeValue::L(items) => r matches Ok(Some(out)) && *out == items,
                _ => r matches Err(e) && e@ == DecodeFault::MismatchedAttribute(key@),
            },
        },
{
    match attr_lookup(values, key) {
        None => Ok(None),
        Some(AttributeValue::L(items)) => Ok(Some(items)),
        Some(_) => Err(DecodeError::MismatchedAttribute(String::from_str(key))),
    }
}

/// Extracts the nested map attribute at `key`.
pub fn extract_map<'a>(key: &str, values: &'a AttributeMap) -> (r: Result<
    Option<&'a AttributeMap>,
    DecodeError,
>)
    ensures
        match attr_get(values@, key@) {
            None => r matches Ok(out) && out is None,
            Some(av) => match av {
                AttributeValue::M(entries) => r matches Ok(Some(out)) && *out == entries,
                _ => r matches Err(e) && e@ == DecodeFault::MismatchedAttribute(key@),
            },
        },
{
    match attr_lookup(values, key) {
        None => Ok(None),
        Some(AttributeValue::M(entries)) => Ok(Some(entries)),
        Some(_) => Err(DecodeError::MismatchedAttribute(String::from_str(key))),
    }
}

/// The string a required string attribute must hold.
pub open spec fn req_string(m: Seq<(String, AttributeValue)>, key: Seq<char>) -> Result<
    Seq<char>,
    DecodeFault,
> {
    match attr_get(m, key) {
        None => Err(DecodeFault::MissingAttribute(key)),
        Some(av) => match av {
            AttributeValue::S(s) => Ok(s@),
            _ => Err(DecodeFault::MismatchedAttribute(key)),
        },
    }
}

/// The timestamp a required date attribute must hold.
pub open spec fn req_date(m: Seq<(String, AttributeValue)>, key: Seq<char>) -> Result<
    Timestamp,
    DecodeFault,
> {
    match req_string(m, key) {
        Err(f) => Err(f),
        Ok(s) => match spec_parse_timestamp(s) {
            Some(t) => Ok(t),
            None => Err(DecodeFault::InvalidDate(key)),
        },
    }
}

/// The timestamp an optional date attribute holds, if present.
pub open spec fn opt_date(m: Seq<(String, AttributeValue)>, key: Seq<char>) -> Result<
    Option<Timestamp>,
    DecodeFault,
> {
    match attr_get(m, key) {
        None => Ok(None),
        Some(av) => match av {
            AttributeValue::S(s) => match spec_parse_timestamp(s@) {
                Some(t) => Ok(Some(t)),
                None => Err(DecodeFault::InvalidDate(key)),
            },
            _ => Err(DecodeFault::MismatchedAttribute(key)),
        },
    }
}

/// The decode relation of a currency map: a known currency code under
/// `code` and a decimal numeral under `value`.
pub open spec fn spec_decode_currency(m: Seq<(String, AttributeValue)>) -> Result<
    CurrencyView,
    DecodeFault,
> {
    match req_string(m, "code"@) {
        Err(f) => Err(f),
        Ok(s) => match spec_parse_currency_code(s) {
            None => Err(DecodeFault::InvalidEnum("Invalid CurrencyCode "@ + s)),
            Some(code) => match attr_get(m, "value"@) {
                None => Err(DecodeFault::MissingAttribute("value"@)),
                Some(av) => match av {
                    AttributeValue::N(v) => if is_number_string(v@) {
                        Ok(CurrencyView { code, value: v@ })
                    } else {
                        Err(DecodeFault::InvalidNumber("value"@))
                    },
                    _ => Err(DecodeFault::MismatchedAttribute("value"@)),
                },
            },
        },
    }
}

/// Decodes a currency map.
pub fn decode_currency(values: &AttributeMap) -> (r: Result<Currency, DecodeError>)
    ensures
        match (r, spec_decode_currency(values@)) {
            (Ok(c), Ok(v)) => c@ == v,
            (Err(e), Err(f)) => e@ == f,
            _ => false,
        },
{
    let code_text = match extract_string("code", values) {
        Err(e) => {
            return Err(e);
        },
        Ok(None) => {
            return Err(DecodeError::MissingAttribute(String::from_str("code")));
        },
        Ok(Some(s)) => s,
    };
    let code = match CurrencyCode::from_str(code_text.as_str()) {
        Err(e) => {
            return Err(DecodeError::InvalidEnum(e));
        },
        Ok(c) => c,
    };
    let value = match extract_number("value", values) {
        Err(e) => {
            return Err(e);
        },
        Ok(None) => {
            return Err(DecodeError::MissingAttribute(String::from_str("value")));
        },
        Ok(Some(v)) => v,
    };
    Ok(Currency { code, value })
}

/// The decode relation of a balance map: a timestamp under `date` and a
/// currency map under `balance`.
pub open spec fn spec_decode_balance(m: Seq<(String, AttributeValue)>) -> Result<
    BalanceView,
    DecodeFault,
> {
    match req_date(m, "date"@) {
        Err(f) => Err(f),
        Ok(date) => match attr_get(m, "balance"@) {
            None => Err(DecodeFault::MissingAttribute("balance"@)),
            Some(av) => match av {
                AttributeValue::M(bm) => match spec_decode_currency(bm@) {
                    Ok(c) => Ok(BalanceView { date, balance: c }),
                    Err(f) => Err(f),
                },
                _ => Err(DecodeFault::MismatchedAttribute("balance"@)),
            },
        },
    }
}

/// Decodes a balance map.
pub fn decode_balance(values: &AttributeMap) -> (r: Result<AccountBalance, DecodeError>)
    ensures
        match (r, spec_decode_balance(values@)) {
            (Ok(b), Ok(v)) => b@ == v,
            (Err(e), Err(f)) => e@ == f,
            _ => false,
        },
{
    let date_text = match extract_string("date", values) {
        Err(e) => {
            return Err(e);
        },
        Ok(None) => {
            return Err(DecodeError::MissingAttribute(String::from_str("date")));
        },
        Ok(Some(s)) => s,
    };
    let date = match convert_date(date_text) {
        None => {
            return Err(DecodeError::InvalidDate(String::from_str("date")));
        },
        Some(t) => t,
    };
    let balance_map = match extract_map("balance", values) {
        Err(e) => {
            return Err(e);
        },
        Ok(None) => {
            return Err(DecodeError::MissingAttribute(String::from_str("balance")));
        },
        Ok(Some(bm)) => bm,
    };
    let balance = match decode_currency(balance_map) {
        Err(e) => {
            return Err(e);
        },
        Ok(c) => c,
    };
    Ok(AccountBalance { date, balance })
}

/// The decode relation of a balance list: each item must be a map that
/// decodes as a balance; the first failure is reported.
pub open spec fn spec_decode_balances(items: Seq<AttributeValue>) -> Result<
    Seq<BalanceView>,
    DecodeFault,
>
    decreases items.len(),
{
    if items.len() == 0 {
        Ok(Seq::empty())
    } else {
        match items[0] {
            AttributeValue::M(bm) => match spec_decode_balance(bm@) {
                Ok(b) => match spec_decode_balances(items.drop_first()) {
                    Ok(rest) => Ok(seq![b] + rest),
                    Err(f) => Err(f),
                },
                Err(f) => Err(f),
            },
            _ => Err(DecodeFault::MismatchedAttribute("balances"@)),
        }
    }
}

/// Decodes a list of balance maps, in order, stopping at the first failure.
pub fn decode_balances(items: &Vec<AttributeValue>) -> (r: Result<Vec<AccountBalance>, DecodeError>)
    ensures
        match (r, spec_decode_balances(items@)) {
            (Ok(bs), Ok(vs)) => bs@.map_values(|b: AccountBalance| b@) == vs,
            (Err(e), Err(f)) => e@ == f,
            _ => false,
        },
{
    let mut acc: Vec<AccountBalance> = Vec::new();
    let mut i: usize = 0;
    proof {
        assert(items@.skip(0) =~= items@);
        assert(acc@.map_values(|b: AccountBalance| b@) =~= Seq::<BalanceView>::empty());
    }
    while i < items.len()
        invariant
            i <= items@.len(),
            match spec_decode_balances(items@) {
                Ok(all) => spec_decode_balances(items@.skip(i as int)) matches Ok(rest) && all
                    == acc@.map_values(|b: AccountBalance| b@) + rest,
                Err(f) => spec_decode_balances(items@.skip(i as int)) == Err::<
                    Seq<BalanceView>,
                    DecodeFault,
                >(f),
            },
        decreases items@.len() - i,
    {
        proof {
            assert(items@.skip(i as int)[0] == items@[i as int]);
            assert(items@.skip(i as int).drop_first() =~= items@.skip(i as int + 1));
        }
        let bm = match &items[i] {
            AttributeValue::M(bm) => bm,
            _ => {
                return Err(DecodeError::MismatchedAttribute(String::from_str("balances")));
            },
        };
        let b = match decode_balance(bm) {
            Err(e) => {
                return Err(e);
            },
            Ok(b) => b,
        };
        let ghost old_acc = acc@;
        acc.push(b);
        proof {
            assert(acc@.map_values(|b: AccountBalance| b@) =~= old_acc.map_values(
                |b: AccountBalance| b@,
            ) + seq![b@]);
            if let Ok(all) = spec_decode_balances(items@) {
                assert(all =~= acc@.map_values(|b: AccountBalance| b@) + spec_decode_balances(
                    items@.skip(i as int + 1),
                )->Ok_0);
            }
        }
        i += 1;
    }
    proof {
        assert(items@.skip(items@.len() as int) =~= Seq::<AttributeValue>::empty());
        if let Ok(all) = spec_decode_balances(items@) {
            assert(all =~= acc@.map_values(|b: AccountBalance| b@));
        }
    }
    Ok(acc)
}

/// The decode relation of an account row: required strings under `id`,
/// `name` and `bank_name`, a timestamp under `open_date`, an optional
/// timestamp under `close_date`, a known account type under `account_type`,
/// a list of balance maps under `balances` and a known status under
/// `status`; the first failure, in that order, is reported.
pub open spec fn spec_decode_account(m: Seq<(String, AttributeValue)>) -> Result<
    AccountView,
    DecodeFault,
> {
    match req_string(m, "id"@) {
        Err(f) => Err(f),
        Ok(id) => match req_string(m, "name"@) {
            Err(f) => Err(f),
            Ok(name) => match req_string(m, "bank_name"@) {
                Err(f) => Err(f),
                Ok(bank_name) => match req_date(m, "open_date"@) {
                    Err(f) => Err(f),
                    Ok(open_date) => match opt_date(m, "close_date"@) {
                        Err(f) => Err(f),
                        Ok(close_date) => match req_string(m, "account_type"@) {
                            Err(f) => Err(f),
                            Ok(type_text) => match spec_parse_account_type(type_text) {
                                None => Err(
                                    DecodeFault::InvalidEnum("Invalid AccountType "@ + type_text),
                                ),
                                Some(account_type) => match attr_get(m, "balances"@) {
                                    None => Err(DecodeFault::MissingAttribute("balances"@)),
                                    Some(av) => match av {
                                        AttributeValue::L(items) => match spec_decode_balances(
                                            items@,
                                        ) {
                                            Err(f) => Err(f),
                                            Ok(balances) => match req_string(m, "status"@) {
                                                Err(f) => Err(f),
                                                Ok(status_text) => match spec_parse_account_status(
                                                    status_text,
                                                ) {
                                                    None => Err(
                                                        DecodeFault::InvalidEnum(
                                                            "Invalid AccountStatus "@
                                                                + status_text,
                                                        ),
                                                    ),
                                                    Some(status) => Ok(
                                                        AccountView {
                                                            id,
                                                            name,
                                                            bank_name,
                                                            open_date,
                                                            close_date,
                                                            account_type,
                                                            balances,
                                                            status,
                                                        },
                                                    ),
                                                },
                                            },
                                        },
                                        _ => Err(DecodeFault::MismatchedAttribute("balances"@)),
                                    },
                                },
                            },
                        },
                    },
                },
            },
        },
    }
}

/// Decodes one stored row into an account.
pub fn decode_account(values: &AttributeMap) -> (r: Result<Account, DecodeError>)
    ensures
        match (r, spec_decode_account(values@)) {
            (Ok(a), Ok(v)) => a@ == v,
            (Err(e), Err(f)) => e@ == f,
            _ => false,
        },
{
    let id = match extract_string("id", values) {
        Err(e) => {
            return Err(e);
        },
        Ok(None) => {
            return Err(DecodeError::MissingAttribute(String::from_str("id")));
        },
        Ok(Some(s)) => s,
    };
    let name = match extract_string("name", values) {
        Err(e) => {
            return Err(e);
        },
        Ok(None) => {
            return Err(DecodeError::MissingAttribute(String::from_str("name")));
        },
        Ok(Some(s)) => s,
    };
    let bank_name = match extract_string("bank_name", values) {
        Err(e) => {
            return Err(e);
        },
        Ok(None) => {
            return Err(DecodeError::MissingAttribute(String::from_str("bank_name")));
        },
        Ok(Some(s)) => s,
    };
    let open_date_text = match extract_string("open_date", values) {
        Err(e) => {
            return Err(e);
        },
        Ok(None) => {
            return Err(DecodeError::MissingAttribute(String::from_str("open_date")));
        },
        Ok(Some(s)) => s,
    };
    let open_date = match convert_date(open_date_text) {
        None => {
            return Err(DecodeError::InvalidDate(String::from_str("open_date")));
        },
        Some(t) => t,
    };
    let close_date = match extract_string("close_date", values) {
        Err(e) => {
            return Err(e);
        },
        Ok(None) => None,
        Ok(Some(s)) => match convert_date(s) {
            None => {
                return Err(DecodeError::InvalidDate(String::from_str("close_date")));
            },
            Some(t) => Some(t),
        },
    };
    let type_text = match extract_string("account_type", values) {
        Err(e) => {
            return Err(e);
        },
        Ok(None) => {
            return Err(DecodeError::MissingAttribute(String::from_str("account_type")));
        },
        Ok(Some(s)) => s,
    };
    let account_type = match AccountType::from_str(type_text.as_str()) {
        Err(e) => {
            return Err(DecodeError::InvalidEnum(e));
        },
        Ok(t) => t,
    };
    let items = match extract_list("balances", values) {
        Err(e) => {
            return Err(e);
        },
        Ok(None) => {
            return Err(DecodeError::MissingAttribute(String::from_str("balances")));
        },
        Ok(Some(items)) => items,
    };
    let balances = match decode_balances(items) {
        Err(e) => {
            return Err(e);
        },
        Ok(bs) => bs,
    };
    let status_text = match extract_string("status", values) {
        Err(e) => {
            return Err(e);
        },
        Ok(None) => {
            return Err(DecodeError::MissingAttribute(String::from_str("status")));
        },
        Ok(Some(s)) => s,
    };
    let status = match AccountStatus::from_str(status_text.as_str()) {
        Err(e) => {
            return Err(DecodeError::InvalidEnum(e));
        },
        Ok(t) => t,
    };
    Ok(Account { id, name, bank_name, open_date, close_date, account_type, balances, status })
}

/// The decode relation of a whole listing: each row decodes as an account,
/// in the store's order; the first failure is reported.
pub open spec fn spec_decode_rows(rows: Seq<AttributeMap>) -> Result<Seq<AccountView>, DecodeFault>
    decreases rows.len(),
{
    if rows.len() == 0 {
        Ok(Seq::empty())
    } else {
        match spec_decode_account(rows[0]@) {
            Ok(a) => match spec_decode_rows(rows.drop_first()) {
                Ok(rest) => Ok(seq![a] + rest),
                Err(f) => Err(f),
            },
            Err(f) => Err(f),
        }
    }
}

/// Decodes the rows of a listing, in order, stopping at the first failure.
pub fn decode_rows(rows: &Vec<AttributeMap>) -> (r: Result<Vec<Account>, DecodeError>)
    ensures
        match (r, spec_decode_rows(rows@)) {
            (Ok(accounts), Ok(vs)) => accounts@.map_values(|a: Account| a@) == vs,
            (Err(e), Err(f)) => e@ == f,
            _ => false,
        },
{
    let mut acc: Vec<Account> = Vec::new();
    let mut i: usize = 0;
    proof {
        assert(rows@.skip(0) =~= rows@);
        assert(acc@.map_values(|a: Account| a@) =~= Seq::<AccountView>::empty());
    }
    while i < rows.len()
        invariant
            i <= rows@.len(),
            match spec_decode_rows(rows@) {
                Ok(all) => spec_decode_rows(rows@.skip(i as int)) matches Ok(rest) && all
                    == acc@.map_values(|a: Account| a@) + rest,
                Err(f) => spec_decode_rows(rows@.skip(i as int)) == Err::<
                    Seq<AccountView>,
                    DecodeFault,
                >(f),
            },
        decreases rows@.len() - i,
    {
        proof {
            assert(rows@.skip(i as int)[0] == rows@[i as int]);
            assert(rows@.skip(i as int).drop_first() =~= rows@.skip(i as int + 1));
        }
        let a = match decode_account(&rows[i]) {
            Err(e) => {
                return Err(e);
            },
            Ok(a) => a,
        };
        let ghost old_acc = acc@;
        acc.push(a);
        proof {
            assert(acc@.map_values(|a: Account| a@) =~= old_acc.map_values(|a: Account| a@)
                + seq![a@]);
            if let Ok(all) = spec_decode_rows(rows@) {
                assert(all =~= acc@.map_values(|a: Account| a@) + spec_decode_rows(
                    rows@.skip(i as int + 1),
                )->Ok_0);
            }
        }
        i += 1;
    }
    proof {
        assert(rows@.skip(rows@.len() as int) =~= Seq::<AttributeMap>::empty());
        if let Ok(all) = spec_decode_rows(rows@) {
            assert(all =~= acc@.map_values(|a: Account| a@));
        }
    }
    Ok(acc)
}

/// The rows a sequence of row references points at.
pub open spec fn deref_rows(rows: Seq<&AttributeMap>) -> Seq<AttributeMap> {
    rows.map_values(|m: &AttributeMap| *m)
}

/// Decodes a listing handed over as row references, in order, stopping at
/// the first failure.
pub fn decode_listing(rows: &Vec<&AttributeMap>) -> (r: Result<Vec<Account>, DecodeError>)
    ensures
        match (r, spec_decode_rows(deref_rows(rows@))) {
            (Ok(accounts), Ok(vs)) => accounts@.map_values(|a: Account| a@) == vs,
            (Err(e), Err(f)) => e@ == f,
            _ => false,
        },
{
    let ghost all_rows = deref_rows(rows@);
    let mut acc: Vec<Account> = Vec::new();
    let mut i: usize = 0;
    proof {
        assert(all_rows.skip(0) =~= all_rows);
        assert(acc@.map_values(|a: Account| a@) =~= Seq::<AccountView>::empty());
    }
    while i < rows.len()
        invariant
            i <= rows@.len(),
            all_rows == deref_rows(rows@),
            match spec_decode_rows(all_rows) {
                Ok(all) => spec_decode_rows(all_rows.skip(i as int)) matches Ok(rest) && all
                    == acc@.map_values(|a: Account| a@) + rest,
                Err(f) => spec_decode_rows(all_rows.skip(i as int)) == Err::<
                    Seq<AccountView>,
                    DecodeFault,
                >(f),
            },
        decreases rows@.len() - i,
    {
        proof {
            assert(all_rows.skip(i as int)[0] == all_rows[i as int]);
            assert(all_rows[i as int] == *rows@[i as int]);
            assert(all_rows.skip(i as int).drop_first() =~= all_rows.skip(i as int + 1));
        }
        let a = match decode_account(rows[i]) {
            Err(e) => {
                return Err(e);
            },
            Ok(a) => a,
        };
        let ghost old_acc = acc@;
        acc.push(a);
        proof {
            assert(acc@.map_values(|a: Account| a@) =~= old_acc.map_values(|a: Account| a@)
                + seq![a@]);
            if let Ok(all) = spec_decode_rows(all_rows) {
                assert(all =~= acc@.map_values(|a: Account| a@) + spec_decode_rows(
                    all_rows.skip(i as int + 1),
                )->Ok_0);
            }
        }
        i += 1;
    }
    proof {
        assert(all_rows.skip(all_rows.len() as int) =~= Seq::<AttributeMap>::empty());
        if let Ok(all) = spec_decode_rows(all_rows) {
            assert(all =~= acc@.map_values(|a: Account| a@));
        }
    }
    Ok(acc)
}

} // verus!
