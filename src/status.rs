use vstd::prelude::*;

verus! {

/// The state that a trade moved to, as reported in a trade update.
#[derive(Clone, Copy, Debug, PartialEq, Eq, Structural)]
pub enum TradeStatus {
    /// Received, and routed to exchanges for execution.
    New,
    /// Filled in part.
    PartialFill,
    /// Filled; no further updates follow for the order.
    Filled,
    /// Done executing for the day; no updates until the next trading day.
    DoneForDay,
    /// Canceled; no further updates follow for the order.
    Canceled,
    /// Expired; no further updates follow for the order.
    Expired,
    /// Waiting to be canceled.
    PendingCancel,
    /// A trade is guaranteed, usually at a stated price or better, but has
    /// not yet occurred.
    Stopped,
    /// Rejected; no further updates follow for the order.
    Rejected,
    /// Not eligible for trading; this happens only on rare occasions.
    Suspended,
    /// Received and routed, but not yet accepted for execution.
    PendingNew,
    /// Completed for the day, with settlement calculations still pending.
    Calculated,
}

/// The one name under which each status travels on the wire.
pub open spec fn status_wire_name(v: TradeStatus) -> Seq<char> {
    match v {
        TradeStatus::New => "new"@,
        TradeStatus::PartialFill => "partial_fill"@,
        TradeStatus::Filled => "fill"@,
        TradeStatus::DoneForDay => "done_for_day"@,
        TradeStatus::Canceled => "canceled"@,
        TradeStatus::Expired => "expired"@,
        TradeStatus::PendingCancel => "pending_cancel"@,
        TradeStatus::Stopped => "stopped"@,
        TradeStatus::Rejected => "rejected"@,
        TradeStatus::Suspended => "suspended"@,
        TradeStatus::PendingNew => "pending_new"@,
        TradeStatus::Calculated => "calculated"@,
    }
}

/// The status that a wire name stands for; `None` for any other text.
pub open spec fn status_of(s: Seq<char>) -> Option<TradeStatus> {
    if s == "new"@ {
        Some(TradeStatus::New)
    } else if s == "partial_fill"@ {
        Some(TradeStatus::PartialFill)
    } else if s == "fill"@ {
        Some(TradeStatus::Filled)
    } else if s == "done_for_day"@ {
        Some(TradeStatus::DoneForDay)
    } else if s == "canceled"@ {
        Some(TradeStatus::Canceled)
    } else if s == "expired"@ {
        Some(TradeStatus::Expired)
    } else if s == "pending_cancel"@ {
        Some(TradeStatus::PendingCancel)
    } else if s == "stopped"@ {
        Some(TradeStatus::Stopped)
    } else if s == "rejected"@ {
        Some(TradeStatus::Rejected)
    } else if s == "suspended"@ {
        Some(TradeStatus::Suspended)
    } else if s == "pending_new"@ {
        Some(TradeStatus::PendingNew)
    } else if s == "calculated"@ {
        Some(TradeStatus::Calculated)
    } else {
        None
    }
}

pub open spec fn status_is_terminal(v: TradeStatus) -> bool {
    v == TradeStatus::Filled || v == TradeStatus::Canceled || v == TradeStatus::Expired || v
        == TradeStatus::Rejected
}

impl TradeStatus {
    /// The name of the status on the wire.
    pub fn wire_name(&self) -> (r: &'static str)
        ensures
            r@ == status_wire_name(*self),
    {
        match self {
            TradeStatus::New => "new",
            TradeStatus::PartialFill => "partial_fill",
            TradeStatus::Filled => "fill",
            TradeStatus::DoneForDay => "done_for_day",
            TradeStatus::Canceled => "canceled",
            TradeStatus::Expired => "expired",
            TradeStatus::PendingCancel => "pending_cancel",
            TradeStatus::Stopped => "stopped",
            TradeStatus::Rejected => "rejected",
            TradeStatus::Suspended => "suspended",
            TradeStatus::PendingNew => "pending_new",
            TradeStatus::Calculated => "calculated",
        }
    }

    /// The status with the given wire name. Matching is exact: any other
    /// text gives `None`, never a fallback status.
    pub fn from_wire(s: &str) -> (r: Option<TradeStatus>)
        ensures
            r == status_of(s@),
    {
        let t = s.to_owned();
        if t == "new".to_owned() {
            Some(TradeStatus::New)
        } else if t == "partial_fill".to_owned() {
            Some(TradeStatus::PartialFill)
        } else if t == "fill".to_owned() {
            Some(TradeStatus::Filled)
        } else if t == "done_for_day".to_owned() {
            Some(TradeStatus::DoneForDay)
        } else if t == "canceled".to_owned() {
            Some(TradeStatus::Canceled)
        } else if t == "expired".to_owned() {
            Some(TradeStatus::Expired)
        } else if t == "pending_cancel".to_owned() {
            Some(TradeStatus::PendingCancel)
        } else if t == "stopped".to_owned() {
            Some(TradeStatus::Stopped)
        } else if t == "rejected".to_owned() {
            Some(TradeStatus::Rejected)
        } else if t == "suspended".to_owned() {
            Some(TradeStatus::Suspended)
        } else if t == "pending_new".to_owned() {
            Some(TradeStatus::PendingNew)
        } else if t == "calculated".to_owned() {
            Some(TradeStatus::Calculated)
        } else {
            None
        }
    }

    /// No further updates follow for an order after a terminal status.
    pub fn is_terminal(&self) -> (r: bool)
        ensures
            r == status_is_terminal(*self),
    {
        match self {
            TradeStatus::Filled | TradeStatus::Canceled | TradeStatus::Expired
            | TradeStatus::Rejected => true,
            _ => false,
        }
    }
}

/// Every status reads back from its wire name, and a text that reads as a
/// status is that status's wire name: decoding succeeds on the wire names
/// and on nothing else.
pub proof fn trade_status_round_trip(v: TradeStatus, s: Seq<char>)
    ensures
        status_of(status_wire_name(v)) == Some(v),
        status_of(s) matches Some(w) ==> status_wire_name(w) == s,
{
    reveal_strlit("new");
    assert("new"@.len() == 3 && "new"@[0] == 'n');
    reveal_strlit("partial_fill");
    assert("partial_fill"@.len() == 12 && "partial_fill"@[0] == 'p');
    reveal_strlit("fill");
    assert("fill"@.len() == 4 && "fill"@[0] == 'f');
    reveal_strlit("done_for_day");
    assert("done_for_day"@.len() == 12 && "done_for_day"@[0] == 'd');
    reveal_strlit("canceled");
    assert("canceled"@.len() == 8 && "canceled"@[0] == 'c');
    reveal_strlit("expired");
    assert("expired"@.len() == 7 && "expired"@[0] == 'e');
    reveal_strlit("pending_cancel");
    assert("pending_cancel"@.len() == 14 && "pending_cancel"@[0] == 'p');
    reveal_strlit("stopped");
    assert("stopped"@.len() == 7 && "stopped"@[0] == 's');
    reveal_strlit("rejected");
    assert("rejected"@.len() == 8 && "rejected"@[0] == 'r');
    reveal_strlit("suspended");
    assert("suspended"@.len() == 9 && "suspended"@[0] == 's');
    reveal_strlit("pending_new");
    assert("pending_new"@.len() == 11 && "pending_new"@[0] == 'p');
    reveal_strlit("calculated");
    assert("calculated"@.len() == 10 && "calculated"@[0] == 'c');
}

} // verus!
