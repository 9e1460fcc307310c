use playground_api::account::{AccountStatus, AccountType};
use playground_api::attribute::AttributeValue;
use playground_api::decoder::{
    decode_account, decode_balance, decode_currency, extract_bool, extract_list, extract_map,
    extract_number, extract_string, DecodeError,
};
use playground_api::model::CurrencyCode;
use playground_api::timestamp::{convert_date, Timestamp};

fn entry(key: &str, value: AttributeValue) -> (String, AttributeValue) {
    (key.to_string(), value)
}

fn text(value: &str) -> AttributeValue {
    AttributeValue::S(value.to_string())
}

fn number(value: &str) -> AttributeValue {
    AttributeValue::N(value.to_string())
}

#[test]
fn should_extract_string_when_available() {
    let key = "batata";
    let values = vec![entry(key, text("frita"))];

    let result = extract_string(key, &values);

    assert!(result.as_ref().unwrap().is_some());
    assert_eq!("frita".to_string(), result.unwrap().unwrap());
}

#[test]
fn should_return_none_when_string_is_not_available() {
    let key = "batata";
    let values = vec![];

    let result = extract_string(key, &values);

    assert!(result.unwrap().is_none());
}

#[test]
fn should_fail_when_attribute_is_not_string() {
    let key = "batata";
    let values = vec![entry(key, number("1"))];

    let result = extract_string(key, &values);

    assert_eq!(Err(DecodeError::MismatchedAttribute("batata".to_string())), result);
}

#[test]
fn should_extract_number_when_available() {
    let key = "batata";
    let values = vec![entry(key, number("1.1"))];

    let result = extract_number(key, &values);

    assert!(result.as_ref().unwrap().is_some());
    assert_eq!("1.1".to_string(), result.unwrap().unwrap());
}

#[test]
fn should_return_none_when_number_is_not_available() {
    let key = "batata";
    let values = vec![];

    let result = extract_number(key, &values);

    assert!(result.unwrap().is_none());
}

#[test]
fn should_fail_when_attribute_is_not_number() {
    let key = "batata";
    let values = vec![entry(key, text("batata"))];

    let result = extract_number(key, &values);

    assert_eq!(Err(DecodeError::MismatchedAttribute("batata".to_string())), result);
}

#[test]
fn should_fail_when_attribute_is_not_parseable_number() {
    let key = "batata";
    let values = vec![entry(key, number("batata"))];

    let result = extract_number(key, &values);

    assert_eq!(Err(DecodeError::InvalidNumber("batata".to_string())), result);
}

#[test]
fn accepts_signed_fractions_and_exponents_as_numbers() {
    for good in ["0", "7", "+7", "-12.5", "1.25", "-12.5e-3", "2E+10", "3e2"] {
        let values = vec![entry("amount", number(good))];
        assert!(extract_number("amount", &values).is_ok(), "rejected {good}");
    }
    for bad in ["", "+", "-", "1.", ".5", "1e", "1e+", "inf", "NaN", "1.2.3", "1 "] {
        let values = vec![entry("amount", number(bad))];
        assert_eq!(
            Err(DecodeError::InvalidNumber("amount".to_string())),
            extract_number("amount", &values),
            "accepted {bad}"
        );
    }
}

#[test]
fn should_extract_bool_when_available() {
    let key = "batata";
    let values = vec![entry(key, AttributeValue::Bool(true))];

    let result = extract_bool(key, &values);

    assert!(result.as_ref().unwrap().is_some());
    assert!(result.unwrap().unwrap());
}

#[test]
fn should_return_none_when_bool_is_not_available() {
    let key = "batata";
    let values = vec![];

    let result = extract_bool(key, &values);

    assert!(result.unwrap().is_none());
}

#[test]
fn should_fail_when_attribute_is_not_bool() {
    let key = "batata";
    let values = vec![entry(key, number("1"))];

    let result = extract_bool(key, &values);

    assert_eq!(Err(DecodeError::MismatchedAttribute("batata".to_string())), result);
}

#[test]
fn should_extract_list_when_available() {
    let key = "batata";
    let values = vec![entry(key, AttributeValue::L(vec![text("test")]))];

    let result = extract_list(key, &values);

    let expected = vec![text("test")];
    assert!(result.as_ref().unwrap().is_some());
    assert_eq!(&expected, result.unwrap().unwrap());
}

#[test]
fn should_return_none_when_list_is_not_available() {
    let key = "batata";
    let values = vec![];

    let result = extract_list(key, &values);

    assert!(result.unwrap().is_none());
}

#[test]
fn should_fail_when_attribute_is_not_list() {
    let key = "batata";
    let values = vec![entry(key, number("1"))];

    let result = extract_list(key, &values);

    assert!(result.is_err());
}

#[test]
fn should_extract_map_when_available() {
    let key = "batata";
    let inner = vec![entry("batata", AttributeValue::Bool(true))];
    let values = vec![entry(key, AttributeValue::M(vec![entry("batata", AttributeValue::Bool(true))]))];

    let result = extract_map(key, &values);

    assert!(result.as_ref().unwrap().is_some());
    assert_eq!(&inner, result.unwrap().unwrap());
}

#[test]
fn should_return_none_when_map_is_not_available() {
    let key = "batata";
    let values = vec![];

    let result = extract_map(key, &values);

    assert!(result.unwrap().is_none());
}

#[test]
fn should_fail_when_attribute_is_not_map() {
    let key = "batata";
    let values = vec![entry(key, number("1"))];

    let result = extract_map(key, &values);

    assert!(result.is_err());
}

#[test]
fn first_binding_of_a_key_wins() {
    let values = vec![entry("k", text("first")), entry("k", text("second"))];

    assert_eq!("first".to_string(), extract_string("k", &values).unwrap().unwrap());
}

#[test]
fn should_convert_valid_date() {
    let expected_date = Timestamp {
        year: 2023,
        month: 2,
        day: 15,
        hour: 13,
        minute: 51,
        second: 12,
        offset_minutes: 180,
    };

    assert_eq!(Some(expected_date), convert_date("15/02/2023 13:51:12+03:00".to_string()));
}

#[test]
fn should_panic_when_converting_invalid_date() {
    assert_eq!(None, convert_date("15/02/2023 13:51".to_string()));
}

#[test]
fn date_parsing_checks_the_calendar() {
    assert!(convert_date("29/02/2024 00:00:00+00:00".to_string()).is_some());
    assert!(convert_date("29/02/2023 00:00:00+00:00".to_string()).is_none());
    assert!(convert_date("31/04/2023 00:00:00+00:00".to_string()).is_none());
    assert!(convert_date("00/01/2023 00:00:00+00:00".to_string()).is_none());
    assert!(convert_date("01/13/2023 00:00:00+00:00".to_string()).is_none());
    assert!(convert_date("01/01/2023 24:00:00+00:00".to_string()).is_none());
    assert!(convert_date("01/01/2023 23:60:00+00:00".to_string()).is_none());
    assert!(convert_date("15/02/2023 13:51:12+0300 ".to_string()).is_none());
}

#[test]
fn date_parsing_accepts_the_pattern_boundaries() {
    assert!(convert_date("31/12/9999 23:59:59+23:59".to_string()).is_some());
    assert!(convert_date("01/01/0000 00:00:00-00:00".to_string()).is_some());
    assert!(convert_date("01/01/2023 00:00:00+24:00".to_string()).is_none());
    assert!(convert_date("01/01/2023 00:00:00+00:60".to_string()).is_none());
}

#[test]
fn date_parsing_keeps_the_offset_sign() {
    let parsed = convert_date("01/06/1999 08:30:00-03:30".to_string()).unwrap();
    assert_eq!(-210, parsed.offset_minutes);
}

fn stored_currency(code: &str, amount: &str) -> AttributeValue {
    AttributeValue::M(vec![entry("code", text(code)), entry("value", number(amount))])
}

fn stored_balance(date: &str, code: &str, amount: &str) -> AttributeValue {
    AttributeValue::M(vec![entry("date", text(date)), entry("balance", stored_currency(code, amount))])
}

fn stored_account_row() -> Vec<(String, AttributeValue)> {
    vec![
        entry("id", text("acc-1")),
        entry("name", text("Main account")),
        entry("bank_name", text("Big Bank")),
        entry("open_date", text("15/02/2023 13:51:12+03:00")),
        entry("account_type", text("CHECKING")),
        entry("balances", AttributeValue::L(vec![stored_balance(
            "16/02/2023 00:00:00+00:00",
            "BRL",
            "1250.75",
        )])),
        entry("status", text("OPEN")),
    ]
}

#[test]
fn decodes_a_complete_row_faithfully() {
    let account = decode_account(&stored_account_row()).unwrap();

    assert_eq!("acc-1".to_string(), account.id);
    assert_eq!("Main account".to_string(), account.name);
    assert_eq!("Big Bank".to_string(), account.bank_name);
    assert_eq!(
        Timestamp { year: 2023, month: 2, day: 15, hour: 13, minute: 51, second: 12, offset_minutes: 180 },
        account.open_date
    );
    assert_eq!(None, account.close_date);
    assert_eq!(AccountType::Checking, account.account_type);
    assert_eq!(AccountStatus::Open, account.status);
    assert_eq!(1, account.balances.len());
    assert_eq!(CurrencyCode::BRL, account.balances[0].balance.code);
    assert_eq!("1250.75".to_string(), account.balances[0].balance.value);
}

#[test]
fn decodes_an_optional_close_date() {
    let mut row = stored_account_row();
    row.push(entry("close_date", text("01/03/2023 09:00:00+00:00")));

    let account = decode_account(&row).unwrap();

    assert_eq!(
        Some(Timestamp { year: 2023, month: 3, day: 1, hour: 9, minute: 0, second: 0, offset_minutes: 0 }),
        account.close_date
    );
}

#[test]
fn decoding_a_row_missing_a_required_field_fails() {
    let row: Vec<(String, AttributeValue)> = stored_account_row()
        .into_iter()
        .filter(|(key, _)| key != "name")
        .collect();

    let result = decode_account(&row);

    assert_eq!(Err(DecodeError::MissingAttribute("name".to_string())), result);
}

#[test]
fn decoding_a_row_with_a_malformed_open_date_fails() {
    let mut row = stored_account_row();
    row[3] = entry("open_date", text("15/02/2023 13:51"));

    let result = decode_account(&row);

    assert_eq!(Err(DecodeError::InvalidDate("open_date".to_string())), result);
}

#[test]
fn decoding_a_row_with_an_unknown_enum_string_fails() {
    let mut row = stored_account_row();
    row[4] = entry("account_type", text("batata"));

    let result = decode_account(&row);

    match result {
        Err(DecodeError::InvalidEnum(e)) => {
            assert_eq!("Invalid AccountType batata".to_string(), e.message)
        },
        other => panic!("expected an enum decode failure, got {other:?}"),
    }
}

#[test]
fn decoding_an_unknown_currency_code_fails() {
    let currency = vec![entry("code", text("USD")), entry("value", number("1"))];

    let result = decode_currency(&currency);

    match result {
        Err(DecodeError::InvalidEnum(e)) => {
            assert_eq!("Invalid CurrencyCode USD".to_string(), e.message)
        },
        other => panic!("expected an enum decode failure, got {other:?}"),
    }
}

#[test]
fn decoding_a_balance_requires_a_currency_map() {
    let balance = vec![
        entry("date", text("16/02/2023 00:00:00+00:00")),
        entry("balance", text("not a map")),
    ];

    let result = decode_balance(&balance);

    assert_eq!(Err(DecodeError::MismatchedAttribute("balance".to_string())), result);
}

#[test]
fn decoding_fails_when_a_balance_item_is_not_a_map() {
    let mut row = stored_account_row();
    row[5] = entry("balances", AttributeValue::L(vec![text("not a map")]));

    let result = decode_account(&row);

    assert_eq!(Err(DecodeError::MismatchedAttribute("balances".to_string())), result);
}
