use playground_api::account::{AccountStatus, AccountType};
use playground_api::model::{Currency, CurrencyCode, ParseEnumError};

fn is_thread_safe<T: Sized + Send + Sync + Unpin>() {}

#[test]
fn should_return_string_representation_of_currency_code() {
    assert_eq!("BRL".to_string(), CurrencyCode::BRL.to_string());
}

#[test]
fn should_return_enum_from_string_of_currency_code() {
    let currency_enum = CurrencyCode::from_str("BRL");
    assert!(currency_enum.is_ok());
    assert_eq!(CurrencyCode::BRL, currency_enum.unwrap());
}

#[test]
fn should_return_err_when_currency_code_does_not_exist() {
    let currency_code = CurrencyCode::from_str("batata");

    assert!(currency_code.is_err());
}

#[test]
fn currency_code_should_be_thread_safe() {
    is_thread_safe::<CurrencyCode>();
}

#[test]
fn currency_should_be_thread_safe() {
    is_thread_safe::<Currency>();
}

#[test]
fn parse_enum_error_should_be_thread_safe() {
    is_thread_safe::<ParseEnumError>();
}

#[test]
fn should_return_string_representation_of_account_type() {
    assert_eq!("SALARY".to_string(), AccountType::Salary.to_string());
    assert_eq!("SAVINGS".to_string(), AccountType::Savings.to_string());
    assert_eq!("CHECKING".to_string(), AccountType::Checking.to_string());
    assert_eq!("INVESTMENT".to_string(), AccountType::Investment.to_string());
    assert_eq!("STOCK".to_string(), AccountType::Stock.to_string());
    assert_eq!("EXTERNAL_PARTY".to_string(), AccountType::ExternalParty.to_string());
}

#[test]
fn should_return_enum_from_string_of_account_type() {
    for (expected, text) in [
        (AccountType::Salary, "SALARY"),
        (AccountType::Savings, "SAVINGS"),
        (AccountType::Checking, "CHECKING"),
        (AccountType::Investment, "INVESTMENT"),
        (AccountType::Stock, "STOCK"),
        (AccountType::ExternalParty, "EXTERNAL_PARTY"),
    ] {
        let account_type = AccountType::from_str(text);
        assert!(account_type.is_ok());
        assert_eq!(expected, account_type.unwrap());
    }
}

#[test]
fn should_return_err_when_account_type_does_not_exist() {
    let account_type = AccountType::from_str("batata");

    assert!(account_type.is_err());
}

#[test]
fn account_type_parse_error_carries_descriptive_message() {
    let error = AccountType::from_str("batata").unwrap_err();
    assert_eq!("Invalid AccountType batata".to_string(), error.message);
}

#[test]
fn should_return_string_representation_of_account_status() {
    assert_eq!("OPEN".to_string(), AccountStatus::Open.to_string());
    assert_eq!("CLOSED".to_string(), AccountStatus::Closed.to_string());
    assert_eq!("NOT_IN_USE".to_string(), AccountStatus::NotInUse.to_string());
}

#[test]
fn should_return_enum_from_string_of_account_status() {
    for (expected, text) in [
        (AccountStatus::Open, "OPEN"),
        (AccountStatus::Closed, "CLOSED"),
        (AccountStatus::NotInUse, "NOT_IN_USE"),
    ] {
        let account_enum = AccountStatus::from_str(text);
        assert!(account_enum.is_ok());
        assert_eq!(expected, account_enum.unwrap());
    }
}

#[test]
fn should_return_err_when_account_status_does_not_exist() {
    let account_status = AccountStatus::from_str("batata");

    assert!(account_status.is_err());
}

#[test]
fn account_status_parse_error_carries_descriptive_message() {
    let error = AccountStatus::from_str("batata").unwrap_err();
    assert_eq!("Invalid AccountStatus batata".to_string(), error.message);
}

#[test]
fn currency_code_parse_error_carries_descriptive_message() {
    let error = CurrencyCode::from_str("batata").unwrap_err();
    assert_eq!("Invalid CurrencyCode batata".to_string(), error.message);
}

#[test]
fn enum_round_trips_through_canonical_string() {
    for status in [AccountStatus::Open, AccountStatus::Closed, AccountStatus::NotInUse] {
        assert_eq!(status, AccountStatus::from_str(status.to_string().as_str()).unwrap());
    }
    for account_type in [
        AccountType::Salary,
        AccountType::Savings,
        AccountType::Checking,
        AccountType::Investment,
        AccountType::Stock,
        AccountType::ExternalParty,
    ] {
        assert_eq!(account_type, AccountType::from_str(account_type.to_string().as_str()).unwrap());
    }
    assert_eq!(CurrencyCode::BRL, CurrencyCode::from_str(CurrencyCode::BRL.to_string().as_str()).unwrap());
}

#[test]
fn parsing_is_case_sensitive() {
    assert!(AccountType::from_str("savings").is_err());
    assert!(AccountStatus::from_str("open").is_err());
    assert!(CurrencyCode::from_str("brl").is_err());
}
