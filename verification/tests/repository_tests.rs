use playground_api::account::{AccountStatus, AccountType};
use playground_api::attribute::AttributeValue;
use playground_api::error::PermanentError;
use playground_api::filter::{build_conditions, build_scan_request};
use playground_api::repository::{AccountRepository, InMemoryDatabaseClient};
use playground_api::service::AccountService;

fn entry(key: &str, value: AttributeValue) -> (String, AttributeValue) {
    (key.to_string(), value)
}

fn text(value: &str) -> AttributeValue {
    AttributeValue::S(value.to_string())
}

fn stored_account_row(id: &str, account_type: &str, status: &str) -> Vec<(String, AttributeValue)> {
    vec![
        entry("id", text(id)),
        entry("name", text("Main account")),
        entry("bank_name", text("Big Bank")),
        entry("open_date", text("15/02/2023 13:51:12+03:00")),
        entry("account_type", text(account_type)),
        entry("balances", AttributeValue::L(vec![])),
        entry("status", text(status)),
    ]
}

#[test]
fn no_filters_emit_no_conditions() {
    let conditions = build_conditions(None, None);

    assert!(conditions.is_empty());
}

#[test]
fn savings_filter_emits_one_condition_bound_to_its_canonical_string() {
    let conditions = build_conditions(Some(AccountType::Savings), None);

    assert_eq!(vec![("account_type".to_string(), "SAVINGS".to_string())], conditions);
}

#[test]
fn status_filter_emits_one_condition_bound_to_its_canonical_string() {
    let conditions = build_conditions(None, Some(AccountStatus::NotInUse));

    assert_eq!(vec![("status".to_string(), "NOT_IN_USE".to_string())], conditions);
}

#[test]
fn both_filters_emit_two_conditions_in_fixed_order() {
    let conditions = build_conditions(Some(AccountType::Checking), Some(AccountStatus::Closed));

    assert_eq!(
        vec![
            ("account_type".to_string(), "CHECKING".to_string()),
            ("status".to_string(), "CLOSED".to_string()),
        ],
        conditions
    );
}

#[test]
fn scan_request_without_conditions_has_no_filter_expression() {
    let request = build_scan_request("Account", &build_conditions(None, None));

    assert_eq!("Account".to_string(), request.table_name);
    assert_eq!(None, request.filter_expression);
    assert!(request.expression_attribute_names.is_empty());
    assert!(request.expression_attribute_values.is_empty());
}

#[test]
fn scan_request_renders_one_condition_as_a_placeholder_equality() {
    let conditions = build_conditions(Some(AccountType::Savings), None);
    let request = build_scan_request("Account", &conditions);

    assert_eq!(Some("#account_type = :account_type".to_string()), request.filter_expression);
    assert_eq!(
        vec![("#account_type".to_string(), "account_type".to_string())],
        request.expression_attribute_names
    );
    assert_eq!(
        vec![(":account_type".to_string(), "SAVINGS".to_string())],
        request.expression_attribute_values
    );
}

#[test]
fn scan_request_joins_two_conditions_with_and() {
    let conditions = build_conditions(Some(AccountType::Savings), Some(AccountStatus::Open));
    let request = build_scan_request("Account", &conditions);

    assert_eq!(
        Some("#account_type = :account_type AND #status = :status".to_string()),
        request.filter_expression
    );
    assert_eq!(
        vec![
            ("#account_type".to_string(), "account_type".to_string()),
            ("#status".to_string(), "status".to_string()),
        ],
        request.expression_attribute_names
    );
    assert_eq!(
        vec![
            (":account_type".to_string(), "SAVINGS".to_string()),
            (":status".to_string(), "OPEN".to_string()),
        ],
        request.expression_attribute_values
    );
}

#[test]
fn empty_store_lists_no_accounts() {
    let repository = AccountRepository::new(InMemoryDatabaseClient { stored: vec![], fault: None });

    let accounts = repository.list_accounts(None, None).unwrap();

    assert!(accounts.is_empty());
}

#[test]
fn unfiltered_listing_returns_every_stored_row_decoded() {
    let client = InMemoryDatabaseClient {
        stored: vec![
            stored_account_row("acc-1", "CHECKING", "OPEN"),
            stored_account_row("acc-2", "SAVINGS", "CLOSED"),
        ],
        fault: None,
    };
    let repository = AccountRepository::new(client);

    let accounts = repository.list_accounts(None, None).unwrap();

    assert_eq!(2, accounts.len());
    assert_eq!("acc-1".to_string(), accounts[0].id);
    assert_eq!("acc-2".to_string(), accounts[1].id);
}

#[test]
fn status_filter_keeps_only_matching_rows() {
    let client = InMemoryDatabaseClient {
        stored: vec![
            stored_account_row("acc-1", "CHECKING", "OPEN"),
            stored_account_row("acc-2", "SAVINGS", "CLOSED"),
        ],
        fault: None,
    };
    let repository = AccountRepository::new(client);

    let accounts = repository.list_accounts(None, Some(AccountStatus::Open)).unwrap();

    assert_eq!(1, accounts.len());
    let account = &accounts[0];
    assert_eq!("acc-1".to_string(), account.id);
    assert_eq!("Main account".to_string(), account.name);
    assert_eq!("Big Bank".to_string(), account.bank_name);
    assert_eq!(AccountType::Checking, account.account_type);
    assert_eq!(AccountStatus::Open, account.status);
    assert!(account.balances.is_empty());
    assert_eq!(None, account.close_date);
}

#[test]
fn both_filters_must_match_for_a_row_to_be_listed() {
    let client = InMemoryDatabaseClient {
        stored: vec![
            stored_account_row("acc-1", "CHECKING", "OPEN"),
            stored_account_row("acc-2", "CHECKING", "CLOSED"),
        ],
        fault: None,
    };
    let repository = AccountRepository::new(client);

    let accounts = repository
        .list_accounts(Some(AccountType::Checking), Some(AccountStatus::Closed))
        .unwrap();

    assert_eq!(1, accounts.len());
    assert_eq!("acc-2".to_string(), accounts[0].id);
}

#[test]
fn store_fault_surfaces_as_the_single_repository_error() {
    let client = InMemoryDatabaseClient {
        stored: vec![stored_account_row("acc-1", "CHECKING", "OPEN")],
        fault: Some("connection refused".to_string()),
    };
    let repository = AccountRepository::new(client);

    let result = repository.list_accounts(None, None);

    let error = result.unwrap_err();
    assert_eq!("connection refused".to_string(), error.describe());
    assert_eq!("{\"cause\":\"connection refused\"}".to_string(), error.error_body());
}

#[test]
fn undecodable_row_turns_the_listing_into_an_error() {
    let mut bad_row = stored_account_row("acc-1", "CHECKING", "OPEN");
    bad_row.retain(|(key, _)| key != "bank_name");
    let client = InMemoryDatabaseClient { stored: vec![bad_row], fault: None };
    let repository = AccountRepository::new(client);

    let result = repository.list_accounts(None, None);

    let error = result.unwrap_err();
    assert_eq!("missing attribute bank_name".to_string(), error.describe());
}

#[test]
fn service_delegates_to_the_repository() {
    let service = AccountService::new(InMemoryDatabaseClient {
        stored: vec![stored_account_row("acc-9", "STOCK", "NOT_IN_USE")],
        fault: None,
    });

    let accounts = service.list_accounts(Some(AccountType::Stock), None).unwrap();

    assert_eq!(1, accounts.len());
    assert_eq!("acc-9".to_string(), accounts[0].id);
}

#[test]
fn should_return_internal_server_error() {
    let error = PermanentError { source: "error".to_string(), message: Some("test".to_string()) };

    assert_eq!("error: test".to_string(), error.describe());
    assert_eq!("{\"cause\":\"error: test\"}".to_string(), error.error_body());
}

#[test]
fn error_body_escapes_the_cause_text() {
    let error = PermanentError {
        source: "broken \"pipe\"".to_string(),
        message: Some("path\\to\nthing".to_string()),
    };

    assert_eq!(
        "{\"cause\":\"broken \\\"pipe\\\": path\\\\to\\nthing\"}".to_string(),
        error.error_body()
    );
}
