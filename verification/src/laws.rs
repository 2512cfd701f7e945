//! General properties of the escrow lifecycle, stated over the ledger's
//! mathematical model and proved once for every ledger and every input.

use vstd::prelude::*;

use crate::ledger::{
    dispute_allowed, escrow_allowed, has_id, moved, record_of, refund_allowed, release_allowed,
    wf_records,
};
use crate::payment::{PaymentStatus, PaymentView};

verus! {

/// Identifiers are unique across the ledger: two distinct records never
/// share one, so an identifier issued at creation was never issued before.
pub proof fn lemma_ids_unique(s: Seq<PaymentView>)
    requires
        wf_records(s),
    ensures
        forall|i: int, j: int|
            0 <= i < s.len() && 0 <= j < s.len() && i != j ==> (#[trigger] s[i]).id != (
            #[trigger] s[j]).id,
{
}

/// A transition rewrites exactly the record it names: that record gets the
/// new status and timestamp and keeps every other field, every other record
/// is untouched, and no record appears or disappears. Together with the
/// transitions' own contracts, a lookup after a transition therefore sees
/// the latest state of every record.
pub proof fn lemma_moved_frames_the_rest(
    s: Seq<PaymentView>,
    id: u64,
    status: PaymentStatus,
    now: u64,
)
    requires
        has_id(s, id),
    ensures
        moved(s, id, status, now).len() == s.len(),
        record_of(moved(s, id, status, now), id) == record_of(s, id).with_status(status, now),
        forall|other: u64|
            has_id(s, other) && other != id ==> #[trigger] record_of(
                moved(s, id, status, now),
                other,
            ) == record_of(s, other),
{
}

/// A successful escrow hands the payment to the settlement stage: the
/// client may then release or refund it, and either party may dispute it.
pub proof fn lemma_escrow_enables_settlement(
    s: Seq<PaymentView>,
    caller: Seq<u8>,
    id: u64,
    now: u64,
)
    requires
        escrow_allowed(s, caller, id),
    ensures
        release_allowed(moved(s, id, PaymentStatus::Escrowed, now), caller, id),
        refund_allowed(moved(s, id, PaymentStatus::Escrowed, now), caller, id),
        dispute_allowed(moved(s, id, PaymentStatus::Escrowed, now), caller, id),
        dispute_allowed(
            moved(s, id, PaymentStatus::Escrowed, now),
            record_of(s, id).freelancer,
            id,
        ),
{
}

/// Settlement consumes the escrowed state: once a payment has moved to
/// `Released`, `Refunded` or `Disputed`, no transition is permitted on it
/// for any caller, so a second settlement attempt is refused (with
/// `InvalidStatus`, by the transitions' contracts).
pub proof fn lemma_settlement_is_final(
    s: Seq<PaymentView>,
    caller: Seq<u8>,
    id: u64,
    status: PaymentStatus,
    now: u64,
)
    requires
        has_id(s, id),
        status == PaymentStatus::Released || status == PaymentStatus::Refunded || status
            == PaymentStatus::Disputed,
    ensures
        !escrow_allowed(moved(s, id, status, now), caller, id),
        !release_allowed(moved(s, id, status, now), caller, id),
        !refund_allowed(moved(s, id, status, now), caller, id),
        !dispute_allowed(moved(s, id, status, now), caller, id),
{
}

} // verus!
