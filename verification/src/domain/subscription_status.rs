use vstd::prelude::*;

verus! {

/// Where a subscriber stands in the double opt-in flow.
#[derive(Debug, Clone, Copy, PartialEq, Eq, Structural)]
pub enum SubscriptionStatus {
    PendingConfirmation,
    Confirmed,
}

/// The text by which a status is stored and shown.
pub open spec fn status_text(status: SubscriptionStatus) -> Seq<char> {
    match status {
        SubscriptionStatus::PendingConfirmation => "pending_confirmation"@,
        SubscriptionStatus::Confirmed => "confirmed"@,
    }
}

impl SubscriptionStatus {
    /// The status as text: `pending_confirmation` or `confirmed`.
    pub fn as_ref(&self) -> (text: &'static str)
        ensures
            text@ == status_text(*self),
            *self == SubscriptionStatus::PendingConfirmation ==> text@ == "pending_confirmation"@,
            *self == SubscriptionStatus::Confirmed ==> text@ == "confirmed"@,
    {
        match self {
            SubscriptionStatus::PendingConfirmation => "pending_confirmation",
            SubscriptionStatus::Confirmed => "confirmed",
        }
    }
}

/// Two statuses never share a text, so the text identifies the status.
pub proof fn lemma_status_text_injective(a: SubscriptionStatus, b: SubscriptionStatus)
    ensures
        status_text(a) == status_text(b) <==> a == b,
{
    reveal_strlit("pending_confirmation");
    reveal_strlit("confirmed");
    if a != b {
        assert(status_text(a).len() != status_text(b).len());
    }
}

} // verus!
