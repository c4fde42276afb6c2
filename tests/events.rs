use apca::decimal::{parse_decimal, Decimal};
use apca::error::{DecodeError, DecodeErrorKind};
use apca::events::{
    AccountUpdate, AccountUpdates, EventStream, StreamType, TradeUpdate, TradeUpdates,
};
use apca::json::{find_field, JsonValue};
use apca::members::decode_optional_timestamp;
use apca::status::TradeStatus;
use apca::timestamp::{parse_timestamp, Timestamp};

fn text(s: &str) -> JsonValue {
    JsonValue::Str(s.to_string())
}

fn member(name: &str, v: JsonValue) -> (String, JsonValue) {
    (name.to_string(), v)
}

fn decimal(numer: &str, denom: &str) -> Decimal {
    Decimal { numer: numer.to_string(), denom: denom.to_string() }
}

fn account_members() -> Vec<(String, JsonValue)> {
    vec![
        member("id", text("b0b7c5a4-2c5e-4a3c-8f1f-0123456789ab")),
        member("created_at", text("2019-08-06T12:00:00Z")),
        member("updated_at", text("2019-08-06T12:00:05Z")),
        member("deleted_at", JsonValue::Null),
        member("status", text("ACTIVE")),
        member("currency", text("USD")),
        member("cash", text("1000.00")),
        member("cash_withdrawable", text("750.50")),
    ]
}

fn order_object() -> JsonValue {
    JsonValue::Object(vec![
        member("id", text("904837e3-3b76-47ec-b432-046db621571b")),
        member("symbol", text("AAPL")),
        member("qty", JsonValue::Number("1".to_string())),
        member("side", text("buy")),
        member("extended_hours", JsonValue::Bool(false)),
        member("legs", JsonValue::Array(vec![])),
    ])
}

fn trade_members(event: &str) -> Vec<(String, JsonValue)> {
    vec![member("event", text(event)), member("order", order_object())]
}

fn error(kind: DecodeErrorKind, field: &str, value: &str) -> DecodeError {
    DecodeError { kind, field: field.to_string(), value: value.to_string() }
}

const ALL_STATUSES: [TradeStatus; 12] = [
    TradeStatus::New,
    TradeStatus::PartialFill,
    TradeStatus::Filled,
    TradeStatus::DoneForDay,
    TradeStatus::Canceled,
    TradeStatus::Expired,
    TradeStatus::PendingCancel,
    TradeStatus::Stopped,
    TradeStatus::Rejected,
    TradeStatus::Suspended,
    TradeStatus::PendingNew,
    TradeStatus::Calculated,
];

#[test]
fn account_update_happy_path() {
    let u = AccountUpdate::decode(&JsonValue::Object(account_members())).unwrap();
    assert_eq!(u.id, "b0b7c5a4-2c5e-4a3c-8f1f-0123456789ab");
    assert_eq!(u.status, "ACTIVE");
    assert_eq!(u.currency, "USD");
    assert_eq!(u.cash, decimal("1000", "1"));
    assert_eq!(u.withdrawable_cash, decimal("1501", "2"));
    assert_eq!(u.deleted_at, None);
    assert_eq!(u.created_at, Some(Timestamp { secs: 1565092800, nanos: 0 }));
    assert_eq!(u.updated_at, Some(Timestamp { secs: 1565092805, nanos: 0 }));
}

#[test]
fn trade_update_with_fill() {
    let u = TradeUpdate::decode(JsonValue::Object(trade_members("fill"))).unwrap();
    assert_eq!(u.event, TradeStatus::Filled);
    assert_eq!(u.order, order_object());
}

#[test]
fn trade_update_unknown_status() {
    let r = TradeUpdate::decode(JsonValue::Object(trade_members("halted")));
    assert_eq!(r.unwrap_err(), error(DecodeErrorKind::UnknownVariant, "event", "halted"));
}

#[test]
fn account_update_null_timestamps() {
    let mut fields = account_members();
    fields[1].1 = JsonValue::Null;
    fields[2].1 = JsonValue::Null;
    let u = AccountUpdate::decode(&JsonValue::Object(fields)).unwrap();
    assert_eq!(u.created_at, None);
    assert_eq!(u.updated_at, None);
    assert_eq!(u.deleted_at, None);
}

#[test]
fn account_update_absent_and_empty_timestamps() {
    let mut fields = account_members();
    fields[1].1 = text("");
    fields.remove(2);
    fields.remove(2);
    let u = AccountUpdate::decode(&JsonValue::Object(fields)).unwrap();
    assert_eq!(u.created_at, None);
    assert_eq!(u.updated_at, None);
    assert_eq!(u.deleted_at, None);
}

#[test]
fn trade_status_round_trip_all_variants() {
    for v in ALL_STATUSES {
        assert_eq!(TradeStatus::from_wire(v.wire_name()), Some(v));
    }
    let names = [
        "new",
        "partial_fill",
        "fill",
        "done_for_day",
        "canceled",
        "expired",
        "pending_cancel",
        "stopped",
        "rejected",
        "suspended",
        "pending_new",
        "calculated",
    ];
    for (v, n) in ALL_STATUSES.iter().zip(names.iter()) {
        assert_eq!(v.wire_name(), *n);
    }
}

#[test]
fn trade_status_rejects_other_text() {
    for s in ["", "filled", "Fill", "NEW", "new ", "halted", "partial-fill"] {
        assert_eq!(TradeStatus::from_wire(s), None);
    }
}

#[test]
fn trade_status_terminal() {
    let terminal: Vec<TradeStatus> = ALL_STATUSES.iter().copied().filter(|v| v.is_terminal()).collect();
    assert_eq!(
        terminal,
        vec![TradeStatus::Filled, TradeStatus::Canceled, TradeStatus::Expired, TradeStatus::Rejected]
    );
}

#[test]
fn optional_timestamp_contract() {
    assert_eq!(decode_optional_timestamp(None, "t"), Ok(None));
    assert_eq!(decode_optional_timestamp(Some(&JsonValue::Null), "t"), Ok(None));
    assert_eq!(decode_optional_timestamp(Some(&text("")), "t"), Ok(None));
    assert_eq!(
        decode_optional_timestamp(Some(&text("2019-08-06T12:00:00Z")), "t"),
        Ok(Some(Timestamp { secs: 1565092800, nanos: 0 }))
    );
    assert_eq!(
        decode_optional_timestamp(Some(&text("yesterday")), "t"),
        Err(error(DecodeErrorKind::InvalidTimestamp, "t", "yesterday"))
    );
    assert_eq!(
        decode_optional_timestamp(Some(&JsonValue::Bool(true)), "t"),
        Err(error(DecodeErrorKind::InvalidType, "t", ""))
    );
}

#[test]
fn timestamp_offsets_and_fractions() {
    assert_eq!(
        parse_timestamp("2019-08-06T14:00:00.25+02:00"),
        Some(Timestamp { secs: 1565092800, nanos: 250_000_000 })
    );
    assert_eq!(
        parse_timestamp("2020-02-29T23:59:59.123456789-05:30"),
        Some(Timestamp { secs: 1583040599, nanos: 123_456_789 })
    );
    assert_eq!(
        parse_timestamp("2020-02-29T23:59:59.1234567891234Z"),
        Some(Timestamp { secs: 1583020799, nanos: 123_456_789 })
    );
    assert_eq!(parse_timestamp("1969-12-31T23:59:59Z"), Some(Timestamp { secs: -1, nanos: 0 }));
    assert_eq!(
        parse_timestamp("0000-01-01T00:00:00Z"),
        Some(Timestamp { secs: -62167219200, nanos: 0 })
    );
    assert_eq!(
        parse_timestamp("9999-12-31T23:59:59Z"),
        Some(Timestamp { secs: 253402300799, nanos: 0 })
    );
}

#[test]
fn timestamp_rejects_malformed_text() {
    for s in [
        "2019-08-06",
        "2019-08-06T12:00:00",
        "2019-08-06 12:00:00Z",
        "2019-13-06T12:00:00Z",
        "2019-00-06T12:00:00Z",
        "2019-02-29T12:00:00Z",
        "2019-04-31T12:00:00Z",
        "2019-08-06T24:00:00Z",
        "2019-08-06T12:60:00Z",
        "2019-08-06T12:00:60Z",
        "2019-08-06T12:00:00.Z",
        "2019-08-06T12:00:00+24:00",
        "2019-08-06T12:00:00+02:60",
        "2019-08-06T12:00:00+0200",
        "2019-08-06T12:00:00Zx",
        "2019-08-06T12:00:00ZZ",
        "20x9-08-06T12:00:00Z",
    ] {
        assert_eq!(parse_timestamp(s), None, "{}", s);
    }
}

#[test]
fn decimal_fidelity() {
    assert_eq!(parse_decimal("0"), Some(decimal("0", "1")));
    assert_eq!(parse_decimal("1000.00"), Some(decimal("1000", "1")));
    assert_eq!(parse_decimal("0.00000001"), Some(decimal("1", "100000000")));
    assert_eq!(parse_decimal("-1.5"), Some(decimal("-3", "2")));
    assert_eq!(parse_decimal("abc"), None);
    assert_eq!(parse_decimal(""), None);
}

#[test]
fn account_update_cash_as_number() {
    let mut fields = account_members();
    fields[6].1 = JsonValue::Number("1000.5".to_string());
    let u = AccountUpdate::decode(&JsonValue::Object(fields)).unwrap();
    assert_eq!(u.cash, decimal("2001", "2"));
}

#[test]
fn account_update_invalid_number() {
    let mut fields = account_members();
    fields[7].1 = text("NaN");
    assert_eq!(
        AccountUpdate::decode(&JsonValue::Object(fields)),
        Err(error(DecodeErrorKind::InvalidNumber, "cash_withdrawable", "NaN"))
    );
}

#[test]
fn account_update_invalid_timestamp() {
    let mut fields = account_members();
    fields[3].1 = text("2019-08-06");
    assert_eq!(
        AccountUpdate::decode(&JsonValue::Object(fields)),
        Err(error(DecodeErrorKind::InvalidTimestamp, "deleted_at", "2019-08-06"))
    );
}

#[test]
fn account_update_invalid_type() {
    let mut fields = account_members();
    fields[4].1 = JsonValue::Number("1".to_string());
    assert_eq!(
        AccountUpdate::decode(&JsonValue::Object(fields)),
        Err(error(DecodeErrorKind::InvalidType, "status", ""))
    );
}

#[test]
fn decode_rejects_non_object() {
    let e = error(DecodeErrorKind::NotAnObject, "", "");
    assert_eq!(AccountUpdate::decode(&JsonValue::Array(vec![])), Err(e.clone()));
    assert_eq!(TradeUpdate::decode(text("fill")).unwrap_err(), e);
}

#[test]
fn trade_update_order_must_be_object() {
    let fields = vec![member("event", text("new")), member("order", text("x"))];
    assert_eq!(
        TradeUpdate::decode(JsonValue::Object(fields)).unwrap_err(),
        error(DecodeErrorKind::InvalidType, "order", "")
    );
}

#[test]
fn unknown_members_tolerated() {
    let plain = AccountUpdate::decode(&JsonValue::Object(account_members())).unwrap();
    let mut fields = account_members();
    fields.insert(3, member("multiplier", text("4")));
    fields.push(member("pattern_day_trader", JsonValue::Bool(false)));
    assert_eq!(AccountUpdate::decode(&JsonValue::Object(fields)).unwrap(), plain);

    let mut fields = trade_members("canceled");
    fields.insert(1, member("timestamp", text("2019-08-06T12:00:00Z")));
    let u = TradeUpdate::decode(JsonValue::Object(fields)).unwrap();
    assert_eq!(u, TradeUpdate { event: TradeStatus::Canceled, order: order_object() });
}

#[test]
fn missing_required_member_named() {
    for name in ["id", "status", "currency", "cash", "cash_withdrawable"] {
        let fields: Vec<(String, JsonValue)> =
            account_members().into_iter().filter(|(k, _)| k != name).collect();
        assert_eq!(
            AccountUpdate::decode(&JsonValue::Object(fields)),
            Err(error(DecodeErrorKind::MissingField, name, "")),
            "{}",
            name
        );
    }
    for name in ["event", "order"] {
        let fields: Vec<(String, JsonValue)> =
            trade_members("new").into_iter().filter(|(k, _)| k != name).collect();
        assert_eq!(
            TradeUpdate::decode(JsonValue::Object(fields)).unwrap_err(),
            error(DecodeErrorKind::MissingField, name, "")
        );
    }
}

#[test]
fn first_member_with_a_name_wins() {
    let fields = vec![member("a", text("1")), member("b", text("2")), member("a", text("3"))];
    assert_eq!(find_field(&fields, "a"), Some(0));
    assert_eq!(find_field(&fields, "b"), Some(1));
    assert_eq!(find_field(&fields, "c"), None);
}

fn event_stream_of<S: EventStream>() -> StreamType {
    S::stream()
}

fn account_events<S: EventStream<Event = AccountUpdate>>() -> StreamType {
    S::stream()
}

fn trade_events<S: EventStream<Event = TradeUpdate>>() -> StreamType {
    S::stream()
}

#[test]
fn stream_bindings() {
    assert_eq!(event_stream_of::<AccountUpdates>(), StreamType::AccountUpdates);
    assert_eq!(event_stream_of::<TradeUpdates>(), StreamType::TradeUpdates);
    assert_eq!(account_events::<AccountUpdates>(), StreamType::AccountUpdates);
    assert_eq!(trade_events::<TradeUpdates>(), StreamType::TradeUpdates);
    assert_eq!(StreamType::AccountUpdates.name(), "account_updates");
    assert_eq!(StreamType::TradeUpdates.name(), "trade_updates");
}

#[test]
fn error_message_names_member_and_value() {
    let e = error(DecodeErrorKind::UnknownVariant, "event", "halted");
    assert_eq!(e.message(), "unknown variant `event`: `halted`");
    let e = error(DecodeErrorKind::MissingField, "cash", "");
    assert_eq!(e.message(), "missing field `cash`");
}
