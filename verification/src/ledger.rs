//! The escrow ledger: an append-only registry of payments keyed by a
//! strictly increasing identifier, with caller-authorized status
//! transitions and side-effect-free queries.

use vstd::prelude::*;

use crate::payment::{Identity, Payment, PaymentError, PaymentStatus, PaymentView};

verus! {

/// The views of a sequence of payments, element by element.
pub open spec fn views_of(ps: Seq<Payment>) -> Seq<PaymentView> {
    ps.map_values(|p: Payment| p@)
}

/// A payment identifier is known exactly when it lies in `1 ..= len`:
/// identifiers are issued densely from 1, and records are never removed,
/// so the record with identifier `id` stands at index `id - 1`.
pub open spec fn has_id(s: Seq<PaymentView>, id: u64) -> bool {
    1 <= id && id <= s.len()
}

/// The record with identifier `id`; meaningful when `has_id(s, id)`.
pub open spec fn record_of(s: Seq<PaymentView>, id: u64) -> PaymentView {
    s[id - 1]
}

/// Every record is internally sound: its identifier is one more than its
/// index, its amount is positive, and it was not updated before it was
/// created.
pub open spec fn wf_records(s: Seq<PaymentView>) -> bool {
    forall|i: int|
        0 <= i < s.len() ==> {
            &&& (#[trigger] s[i]).id == i + 1
            &&& s[i].amount > 0
            &&& s[i].created_at <= s[i].updated_at
        }
}

/// The clock never runs behind the ledger: every recorded timestamp is at
/// most `now`. The environment's clock is assumed monotone non-decreasing,
/// so this holds of every reading it supplies.
pub open spec fn time_ok(s: Seq<PaymentView>, now: u64) -> bool {
    forall|i: int| 0 <= i < s.len() ==> (#[trigger] s[i]).updated_at <= now
}

/// The record that `create_payment` appends to a ledger with contents `s`.
pub open spec fn created_record(
    s: Seq<PaymentView>,
    client: Seq<u8>,
    project_id: u64,
    freelancer: Seq<u8>,
    amount: u64,
    now: u64,
) -> PaymentView {
    PaymentView {
        id: (s.len() + 1) as u64,
        project_id,
        client,
        freelancer,
        amount,
        status: PaymentStatus::Pending,
        created_at: now,
        updated_at: now,
    }
}

/// The ledger's contents after the record `id` moves to `status` at `now`.
pub open spec fn moved(
    s: Seq<PaymentView>,
    id: u64,
    status: PaymentStatus,
    now: u64,
) -> Seq<PaymentView> {
    s.update(id - 1, record_of(s, id).with_status(status, now))
}

/// Holds of the records created by `client`.
pub open spec fn of_client(client: Seq<u8>) -> spec_fn(PaymentView) -> bool {
    |pv: PaymentView| pv.client == client
}

/// Holds of the records naming `freelancer` as the counterparty.
pub open spec fn of_freelancer(freelancer: Seq<u8>) -> spec_fn(PaymentView) -> bool {
    |pv: PaymentView| pv.freelancer == freelancer
}

/// Holds of the records attached to `project_id`.
pub open spec fn of_project(project_id: u64) -> spec_fn(PaymentView) -> bool {
    |pv: PaymentView| pv.project_id == project_id
}

/// The client may fund the escrow: the record exists, the caller created
/// it, and it is still `Pending`.
pub open spec fn escrow_allowed(s: Seq<PaymentView>, caller: Seq<u8>, id: u64) -> bool {
    &&& has_id(s, id)
    &&& record_of(s, id).client == caller
    &&& record_of(s, id).status == PaymentStatus::Pending
}

/// The client may release the funds to the freelancer: the record exists,
/// the caller created it, and it is currently `Escrowed`.
pub open spec fn release_allowed(s: Seq<PaymentView>, caller: Seq<u8>, id: u64) -> bool {
    &&& has_id(s, id)
    &&& record_of(s, id).client == caller
    &&& record_of(s, id).status == PaymentStatus::Escrowed
}

/// The client may take the funds back: the same gate as a release.
pub open spec fn refund_allowed(s: Seq<PaymentView>, caller: Seq<u8>, id: u64) -> bool {
    &&& has_id(s, id)
    &&& record_of(s, id).client == caller
    &&& record_of(s, id).status == PaymentStatus::Escrowed
}

/// Either party may raise a dispute while the payment is `Escrowed`.
pub open spec fn dispute_allowed(s: Seq<PaymentView>, caller: Seq<u8>, id: u64) -> bool {
    &&& has_id(s, id)
    &&& (record_of(s, id).client == caller || record_of(s, id).freelancer == caller)
    &&& record_of(s, id).status == PaymentStatus::Escrowed
}

/// The registry of all payments, together with the identifier counter.
///
/// The vector holds the records in creation order; the record with
/// identifier `id` stands at index `id - 1`. The counter always reads one
/// more than the number of records, so identifiers are never reused.
pub struct EscrowLedger {
    payments: Vec<Payment>,
    next_id: u64,
}

impl View for EscrowLedger {
    type V = Seq<PaymentView>;

    closed spec fn view(&self) -> Seq<PaymentView> {
        views_of(self.payments@)
    }
}

impl EscrowLedger {
    /// The identifier counter agrees with the number of records issued.
    pub closed spec fn counter_ok(&self) -> bool {
        self.next_id == self.payments@.len() + 1
    }

    /// The ledger's invariant: the counter is in step with the registry and
    /// every record is internally sound.
    pub open spec fn wf(&self) -> bool {
        &&& self.counter_ok()
        &&& wf_records(self@)
    }

    /// An empty ledger; the first identifier issued will be 1.
    pub fn new() -> (r: EscrowLedger)
        ensures
            r.wf(),
            r@ == Seq::<PaymentView>::empty(),
    {
        let r = EscrowLedger { payments: Vec::new(), next_id: 1 };
        proof {
            assert(r@ =~= Seq::<PaymentView>::empty());
        }
        r
    }

    /// How many payments have been created.
    pub fn payment_count(&self) -> (n: usize)
        ensures
            n == self@.len(),
    {
        self.payments.len()
    }

    /// Records a new payment from `caller` (who becomes its client) to
    /// `freelancer`, in status `Pending`, stamped `now`, under a fresh
    /// identifier — unless the amount is zero, which is refused and leaves
    /// the ledger unchanged.
    pub fn create_payment(
        &mut self,
        caller: &Identity,
        project_id: u64,
        freelancer: Identity,
        amount: u64,
        now: u64,
    ) -> (r: Result<Payment, PaymentError>)
        requires
            old(self).wf(),
            old(self)@.len() + 1 < u64::MAX,
        ensures
            final(self).wf(),
            amount == 0 ==> r == Err::<Payment, PaymentError>(PaymentError::AmountTooLow)
                && final(self)@ == old(self)@,
            amount > 0 ==> {
                &&& final(self)@ == old(self)@.push(
                    created_record(old(self)@, caller@, project_id, freelancer@, amount, now),
                )
                &&& r matches Ok(p) && p@ == created_record(
                    old(self)@,
                    caller@,
                    project_id,
                    freelancer@,
                    amount,
                    now,
                )
                &&& forall|i: int|
                    0 <= i < old(self)@.len() ==> (#[trigger] old(self)@[i]).id
                        != final(self)@.last().id
            },
    {
        if amount == 0 {
            return Err(PaymentError::AmountTooLow);
        }
        let payment_id = self.next_id;
        self.next_id = self.next_id + 1;
        let payment = Payment {
            id: payment_id,
            project_id,
            client: caller.clone(),
            freelancer,
            amount,
            status: PaymentStatus::Pending,
            created_at: now,
            updated_at: now,
        };
        let result = payment.clone();
        self.payments.push(payment);
        proof {
            assert(self@ =~= old(self)@.push(
                created_record(old(self)@, caller@, project_id, result.freelancer@, amount, now),
            ));
        }
        Ok(result)
    }

    /// Moves a `Pending` payment to `Escrowed` on behalf of its client,
    /// stamping `now`; this is where funds would conceptually enter escrow
    /// custody (fund movement itself is a bookkeeping no-op). Fails with
    /// `NotFound` for an unknown identifier, `Unauthorized` for any caller
    /// but the client, and `InvalidStatus` outside `Pending`; every failure
    /// leaves the ledger unchanged.
    pub fn escrow_payment(
        &mut self,
        caller: &Identity,
        payment_id: u64,
        now: u64,
    ) -> (r: Result<Payment, PaymentError>)
        requires
            old(self).wf(),
            time_ok(old(self)@, now),
        ensures
            final(self).wf(),
            r is Ok <==> escrow_allowed(old(self)@, caller@, payment_id),
            escrow_allowed(old(self)@, caller@, payment_id) ==> {
                &&& final(self)@ == moved(old(self)@, payment_id, PaymentStatus::Escrowed, now)
                &&& r matches Ok(p) && p@ == record_of(final(self)@, payment_id)
            },
            !escrow_allowed(old(self)@, caller@, payment_id) ==> final(self)@ == old(self)@,
            !has_id(old(self)@, payment_id) ==> r == Err::<Payment, PaymentError>(
                PaymentError::NotFound,
            ),
            has_id(old(self)@, payment_id) && record_of(old(self)@, payment_id).client != caller@
                ==> r == Err::<Payment, PaymentError>(PaymentError::Unauthorized),
            has_id(old(self)@, payment_id) && record_of(old(self)@, payment_id).client == caller@
                && record_of(old(self)@, payment_id).status != PaymentStatus::Pending ==> r
                == Err::<Payment, PaymentError>(PaymentError::InvalidStatus),
    {
        if payment_id == 0 || payment_id > self.payments.len() as u64 {
            return Err(PaymentError::NotFound);
        }
        let idx: usize = (payment_id - 1) as usize;
        if !self.payments[idx].client.same_as(caller) {
            return Err(PaymentError::Unauthorized);
        }
        if self.payments[idx].status != PaymentStatus::Pending {
            return Err(PaymentError::InvalidStatus);
        }
        let updated = Payment {
            id: self.payments[idx].id,
            project_id: self.payments[idx].project_id,
            client: self.payments[idx].client.clone(),
            freelancer: self.payments[idx].freelancer.clone(),
            amount: self.payments[idx].amount,
            status: PaymentStatus::Escrowed,
            created_at: self.payments[idx].created_at,
            updated_at: now,
        };
        let result = updated.clone();
        self.payments[idx] = updated;
        proof {
            assert(self@ =~= moved(old(self)@, payment_id, PaymentStatus::Escrowed, now));
        }
        Ok(result)
    }

    /// Moves an `Escrowed` payment to `Released` on behalf of its client,
    /// stamping `now`; this is where the funds would conceptually go to the
    /// freelancer. Fails with `NotFound` for an unknown identifier,
    /// `Unauthorized` for any caller but the client, and `InvalidStatus`
    /// outside `Escrowed`; every failure leaves the ledger unchanged.
    pub fn release_payment(
        &mut self,
        caller: &Identity,
        payment_id: u64,
        now: u64,
    ) -> (r: Result<Payment, PaymentError>)
        requires
            old(self).wf(),
            time_ok(old(self)@, now),
        ensures
            final(self).wf(),
            r is Ok <==> release_allowed(old(self)@, caller@, payment_id),
            release_allowed(old(self)@, caller@, payment_id) ==> {
                &&& final(self)@ == moved(old(self)@, payment_id, PaymentStatus::Released, now)
                &&& r matches Ok(p) && p@ == record_of(final(self)@, payment_id)
            },
            !release_allowed(old(self)@, caller@, payment_id) ==> final(self)@ == old(self)@,
            !has_id(old(self)@, payment_id) ==> r == Err::<Payment, PaymentError>(
                PaymentError::NotFound,
            ),
            has_id(old(self)@, payment_id) && record_of(old(self)@, payment_id).client != caller@
                ==> r == Err::<Payment, PaymentError>(PaymentError::Unauthorized),
            has_id(old(self)@, payment_id) && record_of(old(self)@, payment_id).client == caller@
                && record_of(old(self)@, payment_id).status != PaymentStatus::Escrowed ==> r
                == Err::<Payment, PaymentError>(PaymentError::InvalidStatus),
    {
        if payment_id == 0 || payment_id > self.payments.len() as u64 {
            return Err(PaymentError::NotFound);
        }
        let idx: usize = (payment_id - 1) as usize;
        if !self.payments[idx].client.same_as(caller) {
            return Err(PaymentError::Unauthorized);
        }
        if self.payments[idx].status != PaymentStatus::Escrowed {
            return Err(PaymentError::InvalidStatus);
        }
        let updated = Payment {
            id: self.payments[idx].id,
            project_id: self.payments[idx].project_id,
            client: self.payments[idx].client.clone(),
            freelancer: self.payments[idx].freelancer.clone(),
            amount: self.payments[idx].amount,
            status: PaymentStatus::Released,
            created_at: self.payments[idx].created_at,
            updated_at: now,
        };
        let result = updated.clone();
        self.payments[idx] = updated;
        proof {
            assert(self@ =~= moved(old(self)@, payment_id, PaymentStatus::Released, now));
        }
        Ok(result)
    }

    /// Moves an `Escrowed` payment to `Refunded` on behalf of its client,
    /// stamping `now`; this is where the funds would conceptually return to
    /// the client. Fails with `NotFound` for an unknown identifier,
    /// `Unauthorized` for any caller but the client, and `InvalidStatus`
    /// outside `Escrowed`; every failure leaves the ledger unchanged.
    pub fn refund_payment(
        &mut self,
        caller: &Identity,
        payment_id: u64,
        now: u64,
    ) -> (r: Result<Payment, PaymentError>)
        requires
            old(self).wf(),
            time_ok(old(self)@, now),
        ensures
            final(self).wf(),
            r is Ok <==> refund_allowed(old(self)@, caller@, payment_id),
            refund_allowed(old(self)@, caller@, payment_id) ==> {
                &&& final(self)@ == moved(old(self)@, payment_id, PaymentStatus::Refunded, now)
                &&& r matches Ok(p) && p@ == record_of(final(self)@, payment_id)
            },
            !refund_allowed(old(self)@, caller@, payment_id) ==> final(self)@ == old(self)@,
            !has_id(old(self)@, payment_id) ==> r == Err::<Payment, PaymentError>(
                PaymentError::NotFound,
            ),
            has_id(old(self)@, payment_id) && record_of(old(self)@, payment_id).client != caller@
                ==> r == Err::<Payment, PaymentError>(PaymentError::Unauthorized),
            has_id(old(self)@, payment_id) && record_of(old(self)@, payment_id).client == caller@
                && record_of(old(self)@, payment_id).status != PaymentStatus::Escrowed ==> r
                == Err::<Payment, PaymentError>(PaymentError::InvalidStatus),
    {
        if payment_id == 0 || payment_id > self.payments.len() as u64 {
            return Err(PaymentError::NotFound);
        }
        let idx: usize = (payment_id - 1) as usize;
        if !self.payments[idx].client.same_as(caller) {
            return Err(PaymentError::Unauthorized);
        }
        if self.payments[idx].status != PaymentStatus::Escrowed {
            return Err(PaymentError::InvalidStatus);
        }
        let updated = Payment {
            id: self.payments[idx].id,
            project_id: self.payments[idx].project_id,
            client: self.payments[idx].client.clone(),
            freelancer: self.payments[idx].freelancer.clone(),
            amount: self.payments[idx].amount,
            status: PaymentStatus::Refunded,
            created_at: self.payments[idx].created_at,
            updated_at: now,
        };
        let result = updated.clone();
        self.payments[idx] = updated;
        proof {
            assert(self@ =~= moved(old(self)@, payment_id, PaymentStatus::Refunded, now));
        }
        Ok(result)
    }

    /// Moves an `Escrowed` payment to `Disputed` on behalf of either party,
    /// stamping `now`; no further transition is defined on a disputed
    /// payment. Fails with `NotFound` for an unknown identifier,
    /// `Unauthorized` for a caller who is neither the client nor the
    /// freelancer, and `InvalidStatus` outside `Escrowed`; every failure
    /// leaves the ledger unchanged.
    pub fn dispute_payment(
        &mut self,
        caller: &Identity,
        payment_id: u64,
        now: u64,
    ) -> (r: Result<Payment, PaymentError>)
        requires
            old(self).wf(),
            time_ok(old(self)@, now),
        ensures
            final(self).wf(),
            r is Ok <==> dispute_allowed(old(self)@, caller@, payment_id),
            dispute_allowed(old(self)@, caller@, payment_id) ==> {
                &&& final(self)@ == moved(old(self)@, payment_id, PaymentStatus::Disputed, now)
                &&& r matches Ok(p) && p@ == record_of(final(self)@, payment_id)
            },
            !dispute_allowed(old(self)@, caller@, payment_id) ==> final(self)@ == old(self)@,
            !has_id(old(self)@, payment_id) ==> r == Err::<Payment, PaymentError>(
                PaymentError::NotFound,
            ),
            has_id(old(self)@, payment_id) && record_of(old(self)@, payment_id).client != caller@
                && record_of(old(self)@, payment_id).freelancer != caller@ ==> r == Err::<
                Payment,
                PaymentError,
            >(PaymentError::Unauthorized),
            has_id(old(self)@, payment_id) && (record_of(old(self)@, payment_id).client == caller@
                || record_of(old(self)@, payment_id).freelancer == caller@) && record_of(
                old(self)@,
                payment_id,
            ).status != PaymentStatus::Escrowed ==> r == Err::<Payment, PaymentError>(
                PaymentError::InvalidStatus,
            ),
    {
        if payment_id == 0 || payment_id > self.payments.len() as u64 {
            return Err(PaymentError::NotFound);
        }
        let idx: usize = (payment_id - 1) as usize;
        let is_client = self.payments[idx].client.same_as(caller);
        let is_freelancer = self.payments[idx].freelancer.same_as(caller);
        if !is_client && !is_freelancer {
            return Err(PaymentError::Unauthorized);
        }
        if self.payments[idx].status != PaymentStatus::Escrowed {
            return Err(PaymentError::InvalidStatus);
        }
        let updated = Payment {
            id: self.payments[idx].id,
            project_id: self.payments[idx].project_id,
            client: self.payments[idx].client.clone(),
            freelancer: self.payments[idx].freelancer.clone(),
            amount: self.payments[idx].amount,
            status: PaymentStatus::Disputed,
            created_at: self.payments[idx].created_at,
            updated_at: now,
        };
        let result = updated.clone();
        self.payments[idx] = updated;
        proof {
            assert(self@ =~= moved(old(self)@, payment_id, PaymentStatus::Disputed, now));
        }
        Ok(result)
    }

    /// The record under `payment_id`, or `NotFound`. Read-only: it reports
    /// whatever state the transitions have stored last.
    pub fn get_payment(&self, payment_id: u64) -> (r: Result<Payment, PaymentError>)
        ensures
            has_id(self@, payment_id) ==> (r matches Ok(p) && p@ == record_of(self@, payment_id)),
            !has_id(self@, payment_id) ==> r == Err::<Payment, PaymentError>(
                PaymentError::NotFound,
            ),
    {
        if payment_id == 0 || payment_id > self.payments.len() as u64 {
            return Err(PaymentError::NotFound);
        }
        let idx: usize = (payment_id - 1) as usize;
        Ok(self.payments[idx].clone())
    }

    /// All payments created by `client`, in creation order: exactly the
    /// records whose client is `client`, and no others.
    pub fn get_client_payments(&self, client: &Identity) -> (r: Vec<Payment>)
        ensures
            views_of(r@) == self@.filter(of_client(client@)),
    {
        let mut out: Vec<Payment> = Vec::new();
        let n = self.payments.len();
        let mut i: usize = 0;
        proof {
            reveal(Seq::filter);
            assert(self@.subrange(0, 0) =~= Seq::<PaymentView>::empty());
            assert(views_of(out@) =~= self@.subrange(0, 0).filter(of_client(client@)));
        }
        while i < n
            invariant
                i <= n,
                n == self.payments.len(),
                views_of(out@) == self@.subrange(0, i as int).filter(of_client(client@)),
            decreases n - i,
        {
            let ghost pre = self@.subrange(0, i as int);
            let ghost pred = of_client(client@);
            let p = &self.payments[i];
            if p.client.same_as(client) {
                out.push(p.clone());
            }
            proof {
                let sub = self@.subrange(0, i as int + 1);
                assert(sub.drop_last() =~= pre);
                reveal(Seq::filter);
                assert(views_of(out@) =~= sub.filter(pred));
            }
            i += 1;
        }
        proof {
            assert(self@.subrange(0, n as int) =~= self@);
        }
        out
    }

    /// All payments naming `freelancer` as the counterparty, in creation
    /// order: exactly the matching records, and no others.
    pub fn get_freelancer_payments(&self, freelancer: &Identity) -> (r: Vec<Payment>)
        ensures
            views_of(r@) == self@.filter(of_freelancer(freelancer@)),
    {
        let mut out: Vec<Payment> = Vec::new();
        let n = self.payments.len();
        let mut i: usize = 0;
        proof {
            reveal(Seq::filter);
            assert(self@.subrange(0, 0) =~= Seq::<PaymentView>::empty());
            assert(views_of(out@) =~= self@.subrange(0, 0).filter(of_freelancer(freelancer@)));
        }
        while i < n
            invariant
                i <= n,
                n == self.payments.len(),
                views_of(out@) == self@.subrange(0, i as int).filter(of_freelancer(freelancer@)),
            decreases n - i,
        {
            let ghost pre = self@.subrange(0, i as int);
            let ghost pred = of_freelancer(freelancer@);
            let p = &self.payments[i];
            if p.freelancer.same_as(freelancer) {
                out.push(p.clone());
            }
            proof {
                let sub = self@.subrange(0, i as int + 1);
                assert(sub.drop_last() =~= pre);
                reveal(Seq::filter);
                assert(views_of(out@) =~= sub.filter(pred));
            }
            i += 1;
        }
        proof {
            assert(self@.subrange(0, n as int) =~= self@);
        }
        out
    }

    /// All payments attached to `project_id`, in creation order: exactly
    /// the matching records, and no others.
    pub fn get_project_payments(&self, project_id: u64) -> (r: Vec<Payment>)
        ensures
            views_of(r@) == self@.filter(of_project(project_id)),
    {
        let mut out: Vec<Payment> = Vec::new();
        let n = self.payments.len();
        let mut i: usize = 0;
        proof {
            reveal(Seq::filter);
            assert(self@.subrange(0, 0) =~= Seq::<PaymentView>::empty());
            assert(views_of(out@) =~= self@.subrange(0, 0).filter(of_project(project_id)));
        }
        while i < n
            invariant
                i <= n,
                n == self.payments.len(),
                views_of(out@) == self@.subrange(0, i as int).filter(of_project(project_id)),
            decreases n - i,
        {
            let ghost pre = self@.subrange(0, i as int);
            let ghost pred = of_project(project_id);
            let p = &self.payments[i];
            if p.project_id == project_id {
                out.push(p.clone());
            }
            proof {
                let sub = self@.subrange(0, i as int + 1);
                assert(sub.drop_last() =~= pre);
                reveal(Seq::filter);
                assert(views_of(out@) =~= sub.filter(pred));
            }
            i += 1;
        }
        proof {
            assert(self@.subrange(0, n as int) =~= self@);
        }
        out
    }
}

} // verus!
