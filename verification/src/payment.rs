//! The payment record, the parties' identities, the status lifecycle, and
//! the error taxonomy of the ledger's operations.

use vstd::prelude::*;

verus! {

/// An authenticated party, carried as an opaque byte identifier.
///
/// The hosting environment is trusted to supply each operation's caller as
/// such an identifier; the ledger itself only ever compares identities for
/// equality.
#[derive(Debug)]
pub struct Identity {
    pub bytes: Vec<u8>,
}

impl View for Identity {
    type V = Seq<u8>;

    open spec fn view(&self) -> Seq<u8> {
        self.bytes@
    }
}

impl Identity {
    /// Two identities denote the same party exactly when their bytes agree.
    pub fn same_as(&self, other: &Identity) -> (r: bool)
        ensures
            r == (self@ == other@),
    {
        if self.bytes.len() != other.bytes.len() {
            return false;
        }
        let n = self.bytes.len();
        let mut i: usize = 0;
        while i < n
            invariant
                i <= n,
                n == self.bytes.len(),
                n == other.bytes.len(),
                forall|j: int| 0 <= j < i ==> self.bytes[j] == other.bytes[j],
            decreases n - i,
        {
            if self.bytes[i] != other.bytes[i] {
                return false;
            }
            i += 1;
        }
        proof {
            assert(self@ =~= other@);
        }
        true
    }
}

impl Clone for Identity {
    fn clone(&self) -> (r: Self)
        ensures
            r@ == self@,
    {
        let r = Identity { bytes: self.bytes.clone() };
        proof {
            assert(r@ =~= self@);
        }
        r
    }
}

/// Where a payment stands in its lifecycle.
///
/// The only permitted moves are `Pending -> Escrowed` and
/// `Escrowed -> Released | Refunded | Disputed`; the latter three states are
/// terminal.
#[derive(Clone, Copy, Debug, PartialEq, Eq, Structural)]
pub enum PaymentStatus {
    Pending,
    Escrowed,
    Released,
    Refunded,
    Disputed,
}

/// Why an operation was refused. Every failure leaves the ledger unchanged.
#[derive(Clone, Copy, Debug, PartialEq, Eq, Structural)]
pub enum PaymentError {
    /// The referenced payment identifier has no record.
    NotFound,
    /// The caller is not a permitted party for the requested transition.
    Unauthorized,
    /// The record's current status does not permit the requested transition.
    InvalidStatus,
    /// Creation was requested with a zero amount.
    AmountTooLow,
    /// Reserved for a failure of the value-transfer hook. Fund movement is a
    /// bookkeeping no-op here, so no operation of this crate returns it.
    OperationFailed,
}

/// One escrowed payment. `id`, `project_id`, `client`, `freelancer`, `amount`
/// and `created_at` are fixed at creation; only `status` and `updated_at`
/// change afterwards, and only through the ledger's transitions.
#[derive(Debug)]
pub struct Payment {
    pub id: u64,
    pub project_id: u64,
    pub client: Identity,
    pub freelancer: Identity,
    pub amount: u64,
    pub status: PaymentStatus,
    pub created_at: u64,
    pub updated_at: u64,
}

/// The mathematical image of a [`Payment`]: the same fields, with the
/// identities reduced to their byte sequences.
pub ghost struct PaymentView {
    pub id: u64,
    pub project_id: u64,
    pub client: Seq<u8>,
    pub freelancer: Seq<u8>,
    pub amount: u64,
    pub status: PaymentStatus,
    pub created_at: u64,
    pub updated_at: u64,
}

impl PaymentView {
    /// This record after a status move stamped at `now`; every other field
    /// is kept.
    pub open spec fn with_status(self, status: PaymentStatus, now: u64) -> PaymentView {
        PaymentView { status, updated_at: now, ..self }
    }
}

impl View for Payment {
    type V = PaymentView;

    open spec fn view(&self) -> PaymentView {
        PaymentView {
            id: self.id,
            project_id: self.project_id,
            client: self.client@,
            freelancer: self.freelancer@,
            amount: self.amount,
            status: self.status,
            created_at: self.created_at,
            updated_at: self.updated_at,
        }
    }
}

impl Clone for Payment {
    fn clone(&self) -> (r: Self)
        ensures
            r@ == self@,
    {
        Payment {
            id: self.id,
            project_id: self.project_id,
            client: self.client.clone(),
            freelancer: self.freelancer.clone(),
            amount: self.amount,
            status: self.status,
            created_at: self.created_at,
            updated_at: self.updated_at,
        }
    }
}

} // verus!
