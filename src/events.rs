use vstd::prelude::*;

use crate::decimal::Decimal;
use crate::error::{error_of, DecodeError, DecodeErrorKind, DecodeErrorView};
use crate::json::{find_field, lemma_lookup_remove, lemma_lookup_skip, remove_key, JsonValue};
use crate::members::{
    decimal_member, decode_decimal, decode_status, decode_text, decode_time, missing,
    object_member, status_member, text_member, time_member,
};
use crate::status::TradeStatus;
use crate::timestamp::Timestamp;

verus! {

/// An account update, received through the `account_updates` stream.
#[derive(Clone, Debug, PartialEq, Eq)]
pub struct AccountUpdate {
    /// The account's identifier.
    pub id: String,
    /// When the account was created.
    pub created_at: Option<Timestamp>,
    /// When the account was last updated.
    pub updated_at: Option<Timestamp>,
    /// When the account was deleted, if it was.
    pub deleted_at: Option<Timestamp>,
    /// The account's status, as the broker writes it.
    pub status: String,
    /// The currency the account uses.
    pub currency: String,
    /// The cash balance.
    pub cash: Decimal,
    /// The part of the cash balance that can be withdrawn (member
    /// `cash_withdrawable`).
    pub withdrawable_cash: Decimal,
}

pub ghost struct AccountUpdateView {
    pub id: Seq<char>,
    pub created_at: Option<Timestamp>,
    pub updated_at: Option<Timestamp>,
    pub deleted_at: Option<Timestamp>,
    pub status: Seq<char>,
    pub currency: Seq<char>,
    pub cash: (Seq<char>, Seq<char>),
    pub withdrawable_cash: (Seq<char>, Seq<char>),
}

impl View for AccountUpdate {
    type V = AccountUpdateView;

    open spec fn view(&self) -> AccountUpdateView {
        AccountUpdateView {
            id: self.id@,
            created_at: self.created_at,
            updated_at: self.updated_at,
            deleted_at: self.deleted_at,
            status: self.status@,
            currency: self.currency@,
            cash: self.cash@,
            withdrawable_cash: self.withdrawable_cash@,
        }
    }
}

pub open spec fn not_an_object() -> DecodeErrorView {
    error_of(DecodeErrorKind::NotAnObject, Seq::empty(), Seq::empty())
}

/// The members that an account update reads.
pub open spec fn is_account_member(name: Seq<char>) -> bool {
    name == "id"@ || name == "created_at"@ || name == "updated_at"@ || name == "deleted_at"@ || name
        == "status"@ || name == "currency"@ || name == "cash"@ || name == "cash_withdrawable"@
}

/// The members that an account update cannot do without.
pub open spec fn is_required_account_member(name: Seq<char>) -> bool {
    name == "id"@ || name == "status"@ || name == "currency"@ || name == "cash"@ || name
        == "cash_withdrawable"@
}

/// The account update that the members of an object give, or the error
/// of the first member, in the order of the record's fields, that fails.
pub open spec fn account_update_from(f: Seq<(String, JsonValue)>) -> Result<
    AccountUpdateView,
    DecodeErrorView,
> {
    let id = text_member(f, "id"@);
    let created_at = time_member(f, "created_at"@);
    let updated_at = time_member(f, "updated_at"@);
    let deleted_at = time_member(f, "deleted_at"@);
    let status = text_member(f, "status"@);
    let currency = text_member(f, "currency"@);
    let cash = decimal_member(f, "cash"@);
    let withdrawable_cash = decimal_member(f, "cash_withdrawable"@);
    if id is Err {
        Err(id->Err_0)
    } else if created_at is Err {
        Err(created_at->Err_0)
    } else if updated_at is Err {
        Err(updated_at->Err_0)
    } else if deleted_at is Err {
        Err(deleted_at->Err_0)
    } else if status is Err {
        Err(status->Err_0)
    } else if currency is Err {
        Err(currency->Err_0)
    } else if cash is Err {
        Err(cash->Err_0)
    } else if withdrawable_cash is Err {
        Err(withdrawable_cash->Err_0)
    } else {
        Ok(
            AccountUpdateView {
                id: id->Ok_0,
                created_at: created_at->Ok_0,
                updated_at: updated_at->Ok_0,
                deleted_at: deleted_at->Ok_0,
                status: status->Ok_0,
                currency: currency->Ok_0,
                cash: cash->Ok_0,
                withdrawable_cash: withdrawable_cash->Ok_0,
            },
        )
    }
}

pub open spec fn account_update_of(v: JsonValue) -> Result<AccountUpdateView, DecodeErrorView> {
    match v {
        JsonValue::Object(f) => account_update_from(f@),
        _ => Err(not_an_object()),
    }
}

impl AccountUpdate {
    /// Decodes an account update from a frame's payload. Members that the
    /// record does not read are ignored.
    pub fn decode(v: &JsonValue) -> (r: Result<AccountUpdate, DecodeError>)
        ensures
            match r {
                Ok(u) => account_update_of(*v) == Ok::<AccountUpdateView, DecodeErrorView>(u@),
                Err(e) => account_update_of(*v) == Err::<AccountUpdateView, DecodeErrorView>(e@),
            },
    {
        let fields = match v {
            JsonValue::Object(f) => f,
            _ => {
                proof {
                    reveal_strlit("");
                    assert(""@ =~= Seq::<char>::empty());
                }
                return Err(DecodeError::new(DecodeErrorKind::NotAnObject, "", ""));
            },
        };
        let id = match decode_text(fields, "id") {
            Ok(x) => x,
            Err(e) => return Err(e),
        };
        let created_at = match decode_time(fields, "created_at") {
            Ok(x) => x,
            Err(e) => return Err(e),
        };
        let updated_at = match decode_time(fields, "updated_at") {
            Ok(x) => x,
            Err(e) => return Err(e),
        };
        let deleted_at = match decode_time(fields, "deleted_at") {
            Ok(x) => x,
            Err(e) => return Err(e),
        };
        let status = match decode_text(fields, "status") {
            Ok(x) => x,
            Err(e) => return Err(e),
        };
        let currency = match decode_text(fields, "currency") {
            Ok(x) => x,
            Err(e) => return Err(e),
        };
        let cash = match decode_decimal(fields, "cash") {
            Ok(x) => x,
            Err(e) => return Err(e),
        };
        let withdrawable_cash = match decode_decimal(fields, "cash_withdrawable") {
            Ok(x) => x,
            Err(e) => return Err(e),
        };
        Ok(
            AccountUpdate {
                id,
                created_at,
                updated_at,
                deleted_at,
                status,
                currency,
                cash,
                withdrawable_cash,
            },
        )
    }
}

/// A trade update, received through the `trade_updates` stream: the state
/// an order moved to, and the order itself.
#[derive(Debug, PartialEq)]
pub struct TradeUpdate {
    /// The event that occurred.
    pub event: TradeStatus,
    /// The order the event concerns, as the object the broker sent.
    pub order: JsonValue,
}

/// The members that a trade update reads; it cannot do without either.
pub open spec fn is_trade_member(name: Seq<char>) -> bool {
    name == "event"@ || name == "order"@
}

pub open spec fn trade_update_from(f: Seq<(String, JsonValue)>) -> Result<
    TradeUpdate,
    DecodeErrorView,
> {
    let event = status_member(f, "event"@);
    let order = object_member(f, "order"@);
    if event is Err {
        Err(event->Err_0)
    } else if order is Err {
        Err(order->Err_0)
    } else {
        Ok(TradeUpdate { event: event->Ok_0, order: order->Ok_0 })
    }
}

pub open spec fn trade_update_of(v: JsonValue) -> Result<TradeUpdate, DecodeErrorView> {
    match v {
        JsonValue::Object(f) => trade_update_from(f@),
        _ => Err(not_an_object()),
    }
}

impl TradeUpdate {
    /// Decodes a trade update from a frame's payload, taking the order
    /// object out of it. Members that the record does not read are
    /// ignored.
    pub fn decode(v: JsonValue) -> (r: Result<TradeUpdate, DecodeError>)
        ensures
            match r {
                Ok(u) => trade_update_of(v) == Ok::<TradeUpdate, DecodeErrorView>(u),
                Err(e) => trade_update_of(v) == Err::<TradeUpdate, DecodeErrorView>(e@),
            },
    {
        let mut fields = match v {
            JsonValue::Object(f) => f,
            _ => {
                proof {
                    reveal_strlit("");
                    assert(""@ =~= Seq::<char>::empty());
                }
                return Err(DecodeError::new(DecodeErrorKind::NotAnObject, "", ""));
            },
        };
        let ghost f0 = fields@;
        let event = match decode_status(&fields, "event") {
            Ok(x) => x,
            Err(e) => return Err(e),
        };
        let i = match find_field(&fields, "order") {
            Some(i) => i,
            None => return Err(DecodeError::at(DecodeErrorKind::MissingField, "order")),
        };
        let is_object = match &fields[i].1 {
            JsonValue::Object(_) => true,
            _ => false,
        };
        if !is_object {
            return Err(DecodeError::at(DecodeErrorKind::InvalidType, "order"));
        }
        let (_, order) = fields.remove(i);
        assert(order == f0[i as int].1);
        Ok(TradeUpdate { event, order })
    }
}

/// The streams that the broker pushes, by their identifier on the wire.
#[derive(Clone, Copy, Debug, PartialEq, Eq, Structural)]
pub enum StreamType {
    AccountUpdates,
    TradeUpdates,
}

pub open spec fn stream_name(s: StreamType) -> Seq<char> {
    match s {
        StreamType::AccountUpdates => "account_updates"@,
        StreamType::TradeUpdates => "trade_updates"@,
    }
}

impl StreamType {
    /// The name of the stream in subscribe frames and inbound frames.
    pub fn name(&self) -> (r: &'static str)
        ensures
            r@ == stream_name(*self),
    {
        match self {
            StreamType::AccountUpdates => "account_updates",
            StreamType::TradeUpdates => "trade_updates",
        }
    }
}

/// A stream that can be subscribed to: it ties a stream tag to the
/// identifier of the stream on the wire and to the type of the messages
/// that arrive on it.
pub trait EventStream {
    /// The type of each message decoded from the stream.
    type Event;

    spec fn wire_stream() -> StreamType;

    /// The identifier of the stream on the wire.
    fn stream() -> (r: StreamType)
        ensures
            r == Self::wire_stream(),
    ;
}

/// The tag for subscribing to the `account_updates` stream. Its field is
/// private and nothing builds one: the type is used only as a key.
#[derive(Clone, Copy, Debug)]
pub struct AccountUpdates(());

impl EventStream for AccountUpdates {
    type Event = AccountUpdate;

    open spec fn wire_stream() -> StreamType {
        StreamType::AccountUpdates
    }

    fn stream() -> (r: StreamType) {
        StreamType::AccountUpdates
    }
}

/// The tag for subscribing to the `trade_updates` stream. Its field is
/// private and nothing builds one: the type is used only as a key.
#[derive(Clone, Copy, Debug, PartialEq)]
pub struct TradeUpdates(());

impl EventStream for TradeUpdates {
    type Event = TradeUpdate;

    open spec fn wire_stream() -> StreamType {
        StreamType::TradeUpdates
    }

    fn stream() -> (r: StreamType) {
        StreamType::TradeUpdates
    }
}

/// A member that an account update does not read, put anywhere among the
/// members of a payload, leaves the decoded record (or error) as it was.
pub proof fn account_update_ignores_unknown_member(
    a: Seq<(String, JsonValue)>,
    b: Seq<(String, JsonValue)>,
    extra: (String, JsonValue),
)
    requires
        !is_account_member(extra.0@),
    ensures
        account_update_from(a + seq![extra] + b) == account_update_from(a + b),
{
    lemma_lookup_skip(a, b, extra, "id"@);
    lemma_lookup_skip(a, b, extra, "created_at"@);
    lemma_lookup_skip(a, b, extra, "updated_at"@);
    lemma_lookup_skip(a, b, extra, "deleted_at"@);
    lemma_lookup_skip(a, b, extra, "status"@);
    lemma_lookup_skip(a, b, extra, "currency"@);
    lemma_lookup_skip(a, b, extra, "cash"@);
    lemma_lookup_skip(a, b, extra, "cash_withdrawable"@);
}

/// A member that a trade update does not read, put anywhere among the
/// members of a payload, leaves the decoded record (or error) as it was.
pub proof fn trade_update_ignores_unknown_member(
    a: Seq<(String, JsonValue)>,
    b: Seq<(String, JsonValue)>,
    extra: (String, JsonValue),
)
    requires
        !is_trade_member(extra.0@),
    ensures
        trade_update_from(a + seq![extra] + b) == trade_update_from(a + b),
{
    lemma_lookup_skip(a, b, extra, "event"@);
    lemma_lookup_skip(a, b, extra, "order"@);
}

/// Taking a required member out of a payload that decodes to an account
/// update makes decoding fail with an error that names that member.
pub proof fn account_update_missing_member(f: Seq<(String, JsonValue)>, name: Seq<char>)
    requires
        account_update_from(f) is Ok,
        is_required_account_member(name),
    ensures
        account_update_from(remove_key(f, name)) == Err::<AccountUpdateView, DecodeErrorView>(
            missing(name),
        ),
{
    reveal_strlit("id");
    assert("id"@.len() == 2 && "id"@[0] == 'i');
    reveal_strlit("created_at");
    assert("created_at"@.len() == 10 && "created_at"@[0] == 'c');
    reveal_strlit("updated_at");
    assert("updated_at"@.len() == 10 && "updated_at"@[0] == 'u');
    reveal_strlit("deleted_at");
    assert("deleted_at"@.len() == 10 && "deleted_at"@[0] == 'd');
    reveal_strlit("status");
    assert("status"@.len() == 6 && "status"@[0] == 's');
    reveal_strlit("currency");
    assert("currency"@.len() == 8 && "currency"@[0] == 'c');
    reveal_strlit("cash");
    assert("cash"@.len() == 4 && "cash"@[0] == 'c');
    reveal_strlit("cash_withdrawable");
    assert("cash_withdrawable"@.len() == 17 && "cash_withdrawable"@[0] == 'c');
    lemma_lookup_remove(f, name, "id"@);
    lemma_lookup_remove(f, name, "created_at"@);
    lemma_lookup_remove(f, name, "updated_at"@);
    lemma_lookup_remove(f, name, "deleted_at"@);
    lemma_lookup_remove(f, name, "status"@);
    lemma_lookup_remove(f, name, "currency"@);
    lemma_lookup_remove(f, name, "cash"@);
    lemma_lookup_remove(f, name, "cash_withdrawable"@);
}

/// Taking the `event` or the `order` member out of a payload that decodes
/// to a trade update makes decoding fail with an error that names that
/// member.
pub proof fn trade_update_missing_member(f: Seq<(String, JsonValue)>, name: Seq<char>)
    requires
        trade_update_from(f) is Ok,
        is_trade_member(name),
    ensures
        trade_update_from(remove_key(f, name)) == Err::<TradeUpdate, DecodeErrorView>(
            missing(name),
        ),
{
    reveal_strlit("event");
    assert("event"@.len() == 5 && "event"@[0] == 'e');
    reveal_strlit("order");
    assert("order"@.len() == 5 && "order"@[0] == 'o');
    lemma_lookup_remove(f, name, "event"@);
    lemma_lookup_remove(f, name, "order"@);
}

/// Each stream tag is bound to its own stream: account updates to
/// `account_updates`, trade updates to `trade_updates`.
pub proof fn stream_bindings()
    ensures
        AccountUpdates::wire_stream() == StreamType::AccountUpdates,
        TradeUpdates::wire_stream() == StreamType::TradeUpdates,
        stream_name(AccountUpdates::wire_stream()) == "account_updates"@,
        stream_name(TradeUpdates::wire_stream()) == "trade_updates"@,
        AccountUpdates::wire_stream() != TradeUpdates::wire_stream(),
{
}

} // verus!
