//! Account model: the account-type and account-status enumerations with
//! their canonical upper-snake-case strings, the account and balance
//! records, and the optional listing filters.

use vstd::prelude::*;
use vstd::string::StringExecFns;

use crate::model::{Currency, CurrencyView, ParseEnumError};
use crate::text::str_eq;
use crate::timestamp::Timestamp;

verus! {

/// The kind of an account.
#[derive(Clone, Copy, Debug, PartialEq, Eq, Structural)]
pub enum AccountType {
    Salary,
    Savings,
    Checking,
    Investment,
    Stock,
    ExternalParty,
}

/// The lifecycle state of an account.
#[derive(Clone, Copy, Debug, PartialEq, Eq, Structural)]
pub enum AccountStatus {
    Open,
    Closed,
    NotInUse,
}

/// A point-in-time balance snapshot of an account.
#[derive(Clone, Debug, PartialEq)]
pub struct AccountBalance {
    pub date: Timestamp,
    pub balance: Currency,
}

/// An account as materialized from one stored row.
#[derive(Clone, Debug, PartialEq)]
pub struct Account {
    pub id: String,
    pub name: String,
    pub bank_name: String,
    pub open_date: Timestamp,
    pub close_date: Option<Timestamp>,
    pub account_type: AccountType,
    pub balances: Vec<AccountBalance>,
    pub status: AccountStatus,
}

/// The optional filters of a listing request.
#[derive(Clone, Copy, Debug, PartialEq, Eq, Structural)]
pub struct ListAccountParams {
    pub account_type: Option<AccountType>,
    pub account_status: Option<AccountStatus>,
}

/// The mathematical image of an [`AccountBalance`].
pub struct BalanceView {
    pub date: Timestamp,
    pub balance: CurrencyView,
}

/// The mathematical image of an [`Account`].
pub struct AccountView {
    pub id: Seq<char>,
    pub name: Seq<char>,
    pub bank_name: Seq<char>,
    pub open_date: Timestamp,
    pub close_date: Option<Timestamp>,
    pub account_type: AccountType,
    pub balances: Seq<BalanceView>,
    pub status: AccountStatus,
}

impl View for AccountBalance {
    type V = BalanceView;

    open spec fn view(&self) -> BalanceView {
        BalanceView { date: self.date, balance: self.balance@ }
    }
}

impl View for Account {
    type V = AccountView;

    open spec fn view(&self) -> AccountView {
        AccountView {
            id: self.id@,
            name: self.name@,
            bank_name: self.bank_name@,
            open_date: self.open_date,
            close_date: self.close_date,
            account_type: self.account_type,
            balances: self.balances@.map_values(|b: AccountBalance| b@),
            status: self.status,
        }
    }
}

/// The canonical string of an account type.
pub open spec fn account_type_str(t: AccountType) -> Seq<char> {
    match t {
        AccountType::Salary => "SALARY"@,
        AccountType::Savings => "SAVINGS"@,
        AccountType::Checking => "CHECKING"@,
        AccountType::Investment => "INVESTMENT"@,
        AccountType::Stock => "STOCK"@,
        AccountType::ExternalParty => "EXTERNAL_PARTY"@,
    }
}

/// The exact parse relation: which strings name an account type.
pub open spec fn spec_parse_account_type(s: Seq<char>) -> Option<AccountType> {
    if s == "SALARY"@ {
        Some(AccountType::Salary)
    } else if s == "SAVINGS"@ {
        Some(AccountType::Savings)
    } else if s == "CHECKING"@ {
        Some(AccountType::Checking)
    } else if s == "INVESTMENT"@ {
        Some(AccountType::Investment)
    } else if s == "STOCK"@ {
        Some(AccountType::Stock)
    } else if s == "EXTERNAL_PARTY"@ {
        Some(AccountType::ExternalParty)
    } else {
        None
    }
}

/// The canonical string of an account status.
pub open spec fn account_status_str(t: AccountStatus) -> Seq<char> {
    match t {
        AccountStatus::Open => "OPEN"@,
        AccountStatus::Closed => "CLOSED"@,
        AccountStatus::NotInUse => "NOT_IN_USE"@,
    }
}

/// The exact parse relation: which strings name an account status.
pub open spec fn spec_parse_account_status(s: Seq<char>) -> Option<AccountStatus> {
    if s == "OPEN"@ {
        Some(AccountStatus::Open)
    } else if s == "CLOSED"@ {
        Some(AccountStatus::Closed)
    } else if s == "NOT_IN_USE"@ {
        Some(AccountStatus::NotInUse)
    } else {
        None
    }
}

impl AccountType {
    /// The canonical string of this account type.
    pub fn to_string(&self) -> (s: String)
        ensures
            s@ == account_type_str(*self),
    {
        match self {
            AccountType::Salary => String::from_str("SALARY"),
            AccountType::Savings => String::from_str("SAVINGS"),
            AccountType::Checking => String::from_str("CHECKING"),
            AccountType::Investment => String::from_str("INVESTMENT"),
            AccountType::Stock => String::from_str("STOCK"),
            AccountType::ExternalParty => String::from_str("EXTERNAL_PARTY"),
        }
    }

    /// Parses a canonical string back into an account type; any other string
    /// is rejected with a descriptive error.
    pub fn from_str(value: &str) -> (r: Result<AccountType, ParseEnumError>)
        ensures
            match spec_parse_account_type(value@) {
                Some(t) => r == Ok::<AccountType, ParseEnumError>(t),
                None => r matches Err(e) && e.message@ == "Invalid AccountType "@ + value@,
            },
    {
        if str_eq(value, "SALARY") {
            Ok(AccountType::Salary)
        } else if str_eq(value, "SAVINGS") {
            Ok(AccountType::Savings)
        } else if str_eq(value, "CHECKING") {
            Ok(AccountType::Checking)
        } else if str_eq(value, "INVESTMENT") {
            Ok(AccountType::Investment)
        } else if str_eq(value, "STOCK") {
            Ok(AccountType::Stock)
        } else if str_eq(value, "EXTERNAL_PARTY") {
            Ok(AccountType::ExternalParty)
        } else {
            Err(ParseEnumError { message: String::from_str("Invalid AccountType ").concat(value) })
        }
    }
}

impl AccountStatus {
    /// The canonical string of this account status.
    pub fn to_string(&self) -> (s: String)
        ensures
            s@ == account_status_str(*self),
    {
        match self {
            AccountStatus::Open => String::from_str("OPEN"),
            AccountStatus::Closed => String::from_str("CLOSED"),
            AccountStatus::NotInUse => String::from_str("NOT_IN_USE"),
        }
    }

    /// Parses a canonical string back into an account status; any other
    /// string is rejected with a descriptive error.
    pub fn from_str(value: &str) -> (r: Result<AccountStatus, ParseEnumError>)
        ensures
            match spec_parse_account_status(value@) {
                Some(t) => r == Ok::<AccountStatus, ParseEnumError>(t),
                None => r matches Err(e) && e.message@ == "Invalid AccountStatus "@ + value@,
            },
    {
        if str_eq(value, "OPEN") {
            Ok(AccountStatus::Open)
        } else if str_eq(value, "CLOSED") {
            Ok(AccountStatus::Closed)
        } else if str_eq(value, "NOT_IN_USE") {
            Ok(AccountStatus::NotInUse)
        } else {
            Err(
                ParseEnumError {
                    message: String::from_str("Invalid AccountStatus ").concat(value),
                },
            )
        }
    }
}

/// Round-trip law: parsing the canonical string of any account type gives
/// that type back.
pub proof fn lemma_account_type_round_trip(t: AccountType)
    ensures
        spec_parse_account_type(account_type_str(t)) == Some(t),
{
    reveal_strlit("SALARY");
    reveal_strlit("SAVINGS");
    reveal_strlit("CHECKING");
    reveal_strlit("INVESTMENT");
    reveal_strlit("STOCK");
    reveal_strlit("EXTERNAL_PARTY");
    assert(("SALARY"@).len() == 6);
    assert(("SAVINGS"@).len() == 7);
    assert(("CHECKING"@).len() == 8);
    assert(("INVESTMENT"@).len() == 10);
    assert(("STOCK"@).len() == 5);
    assert(("EXTERNAL_PARTY"@).len() == 14);
    match t {
        AccountType::Salary => assert(account_type_str(t) == "SALARY"@),
        AccountType::Savings => assert(account_type_str(t) == "SAVINGS"@),
        AccountType::Checking => assert(account_type_str(t) == "CHECKING"@),
        AccountType::Investment => assert(account_type_str(t) == "INVESTMENT"@),
        AccountType::Stock => assert(account_type_str(t) == "STOCK"@),
        AccountType::ExternalParty => assert(account_type_str(t) == "EXTERNAL_PARTY"@),
    }
}

/// A string parses as an account type if and only if it is the canonical
/// string of some type; every other string is rejected.
pub proof fn lemma_account_type_parse_exhaustive(s: Seq<char>)
    ensures
        spec_parse_account_type(s) is None <==> forall|t: AccountType| account_type_str(t) != s,
{
    if spec_parse_account_type(s) is None {
        assert forall|t: AccountType| account_type_str(t) != s by {
            match t {
                AccountType::Salary => assert(account_type_str(t) == "SALARY"@),
                AccountType::Savings => assert(account_type_str(t) == "SAVINGS"@),
                AccountType::Checking => assert(account_type_str(t) == "CHECKING"@),
                AccountType::Investment => assert(account_type_str(t) == "INVESTMENT"@),
                AccountType::Stock => assert(account_type_str(t) == "STOCK"@),
                AccountType::ExternalParty => assert(account_type_str(t) == "EXTERNAL_PARTY"@),
            }
        }
    } else {
        let t = spec_parse_account_type(s)->0;
        lemma_account_type_round_trip(t);
        assert(account_type_str(t) == s) by {
            reveal_strlit("SALARY");
            reveal_strlit("SAVINGS");
            reveal_strlit("CHECKING");
            reveal_strlit("INVESTMENT");
            reveal_strlit("STOCK");
            reveal_strlit("EXTERNAL_PARTY");
        }
    }
}

/// Round-trip law: parsing the canonical string of any account status gives
/// that status back.
pub proof fn lemma_account_status_round_trip(t: AccountStatus)
    ensures
        spec_parse_account_status(account_status_str(t)) == Some(t),
{
    reveal_strlit("OPEN");
    reveal_strlit("CLOSED");
    reveal_strlit("NOT_IN_USE");
    assert(("OPEN"@).len() == 4);
    assert(("CLOSED"@).len() == 6);
    assert(("NOT_IN_USE"@).len() == 10);
    match t {
        AccountStatus::Open => assert(account_status_str(t) == "OPEN"@),
        AccountStatus::Closed => assert(account_status_str(t) == "CLOSED"@),
        AccountStatus::NotInUse => assert(account_status_str(t) == "NOT_IN_USE"@),
    }
}

/// A string parses as an account status if and only if it is the canonical
/// string of some status; every other string is rejected.
pub proof fn lemma_account_status_parse_exhaustive(s: Seq<char>)
    ensures
        spec_parse_account_status(s) is None <==> forall|t: AccountStatus| account_status_str(t)
            != s,
{
    if spec_parse_account_status(s) is None {
        assert forall|t: AccountStatus| account_status_str(t) != s by {
            match t {
                AccountStatus::Open => assert(account_status_str(t) == "OPEN"@),
                AccountStatus::Closed => assert(account_status_str(t) == "CLOSED"@),
                AccountStatus::NotInUse => assert(account_status_str(t) == "NOT_IN_USE"@),
            }
        }
    } else {
        let t = spec_parse_account_status(s)->0;
        lemma_account_status_round_trip(t);
        assert(account_status_str(t) == s) by {
            reveal_strlit("OPEN");
            reveal_strlit("CLOSED");
            reveal_strlit("NOT_IN_USE");
        }
    }
}

} // verus!
