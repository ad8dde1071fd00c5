use vstd::prelude::*;

verus! {

/// Largest total the ledger can hold.
pub const MAX_TOTAL: u32 = 0xffff_ffff;

/// Addition on the unsigned 32-bit range that clamps at the maximum.
pub open spec fn sat_add(a: u32, b: u32) -> u32 {
    if a + b > u32::MAX {
        u32::MAX
    } else {
        (a + b) as u32
    }
}

/// The caller could not prove control of the address it named.
#[derive(Clone, Copy, Debug, PartialEq, Eq, Structural)]
pub struct AuthorizationError;

/// What the ledger means: the logical total and the owner named by the most
/// recent successful mint.
pub struct LedgerView<A> {
    pub total: u32,
    pub last_owner: Option<A>,
}

impl<A> LedgerView<A> {
    /// The view of a ledger on which nothing has been minted.
    pub open spec fn fresh() -> Self {
        LedgerView { total: 0, last_owner: None }
    }

    /// The view after a successful mint of `amount` tickets to `owner`.
    pub open spec fn after_mint(self, owner: A, amount: u32) -> Self {
        LedgerView { total: sat_add(self.total, amount), last_owner: Some(owner) }
    }
}

/// The view after the successful mints `ms`, each an owner and an amount,
/// applied in order to `v`.
pub open spec fn after_mints<A>(v: LedgerView<A>, ms: Seq<(A, u32)>) -> LedgerView<A>
    decreases ms.len(),
{
    if ms.len() == 0 {
        v
    } else {
        after_mints(v, ms.drop_last()).after_mint(ms.last().0, ms.last().1)
    }
}

/// Saturating addition folded over `amounts`, starting from 0.
pub open spec fn saturating_sum(amounts: Seq<u32>) -> u32
    decreases amounts.len(),
{
    if amounts.len() == 0 {
        0
    } else {
        sat_add(saturating_sum(amounts.drop_last()), amounts.last())
    }
}

/// The amounts of the mints `ms`, in order.
pub open spec fn amounts_of<A>(ms: Seq<(A, u32)>) -> Seq<u32> {
    ms.map_values(|m: (A, u32)| m.1)
}

/// After any sequence of successful mints on a fresh ledger, the total is
/// the saturating sum of their amounts.
pub proof fn lemma_total_is_saturating_sum<A>(ms: Seq<(A, u32)>)
    ensures
        after_mints(LedgerView::<A>::fresh(), ms).total == saturating_sum(amounts_of(ms)),
    decreases ms.len(),
{
    if ms.len() > 0 {
        lemma_total_is_saturating_sum(ms.drop_last());
        assert(amounts_of(ms.drop_last()) =~= amounts_of(ms).drop_last());
    }
}

/// The total never decreases over a sequence of successful mints.
pub proof fn lemma_total_non_decreasing<A>(v: LedgerView<A>, ms: Seq<(A, u32)>)
    ensures
        after_mints(v, ms).total >= v.total,
    decreases ms.len(),
{
    if ms.len() > 0 {
        lemma_total_non_decreasing(v, ms.drop_last());
    }
}

/// A successful mint names its owner as the last owner, whatever the amount.
pub proof fn lemma_mint_names_last_owner<A>(v: LedgerView<A>, owner: A, amount: u32)
    ensures
        v.after_mint(owner, amount).last_owner == Some(owner),
{
}

/// Two successful mints of zero tickets by one owner leave the total as it
/// was and name that owner as the last owner.
pub proof fn lemma_zero_mints_keep_total<A>(v: LedgerView<A>, owner: A)
    ensures
        v.after_mint(owner, 0).after_mint(owner, 0).total == v.total,
        v.after_mint(owner, 0).after_mint(owner, 0).last_owner == Some(owner),
{
}

/// The ledger's durable state: the stored total and the stored last owner,
/// each absent until the first successful mint.
pub struct TicketChainContract<A> {
    total: Option<u32>,
    last_owner: Option<A>,
}

impl<A> View for TicketChainContract<A> {
    type V = LedgerView<A>;

    /// An absent total counts as 0.
    closed spec fn view(&self) -> LedgerView<A> {
        LedgerView {
            total: match self.total {
                Some(t) => t,
                None => 0,
            },
            last_owner: self.last_owner,
        }
    }
}

impl<A> TicketChainContract<A> {
    /// A ledger with nothing stored.
    pub fn new() -> (r: Self)
        ensures
            r@ == LedgerView::<A>::fresh(),
    {
        TicketChainContract { total: None, last_owner: None }
    }

    /// A ledger over values read from the durable store, `None` where a
    /// key is absent.
    pub fn from_stored(total: Option<u32>, last_owner: Option<A>) -> (r: Self)
        ensures
            r@.total == total.unwrap_or(0),
            r@.last_owner == last_owner,
            r.stored_total() == total,
    {
        TicketChainContract { total, last_owner }
    }

    /// The total as the durable store holds it, `None` while absent.
    pub closed spec fn stored_total(&self) -> Option<u32> {
        self.total
    }

    /// The stored values, to be written back to the durable store.
    pub fn into_stored(self) -> (r: (Option<u32>, Option<A>))
        ensures
            r.0 == self.stored_total(),
            r.0.unwrap_or(0) == self@.total,
            r.1 == self@.last_owner,
    {
        (self.total, self.last_owner)
    }

    /// Mints `amount` tickets to `owner`, given the outcome `auth` of the
    /// check that the caller controls `owner`. On success the total grows by
    /// `amount`, clamped at the largest `u32`, and `owner` becomes the last
    /// owner; on failure nothing changes and the error is returned.
    pub fn mint_ticket(&mut self, owner: A, amount: u32, auth: Result<(), AuthorizationError>) -> (r: Result<(), AuthorizationError>)
        ensures
            r == auth,
            auth is Ok ==> final(self)@ == old(self)@.after_mint(owner, amount),
            auth is Ok ==> final(self).stored_total() == Some(final(self)@.total),
            auth is Err ==> *final(self) == *old(self),
            final(self)@.total >= old(self)@.total,
    {
        if auth.is_ok() {
            let total: u32 = self.total.unwrap_or(0).saturating_add(amount);
            self.total = Some(total);
            self.last_owner = Some(owner);
        }
        auth
    }

    /// Total number of tickets minted so far.
    pub fn get_total_tickets(&self) -> (r: u32)
        ensures
            r == self@.total,
    {
        self.total.unwrap_or(0)
    }

    /// The owner named by the most recent successful mint, if any.
    pub fn get_last_ticket_owner(&self) -> (r: Option<&A>)
        ensures
            r is Some <==> self@.last_owner is Some,
            r is Some ==> *r->0 == self@.last_owner->0,
    {
        self.last_owner.as_ref()
    }
}

} // verus!
