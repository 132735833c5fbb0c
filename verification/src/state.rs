use vstd::prelude::*;

verus! {

/// Identity of a ledger account: the raw 32 bytes of its address.
///
/// Authority over the vault is never a stored key; it is reconstructed on
/// demand from a derivation path (see `addresses`), so an identity here is
/// only ever compared and copied, never signed with.
#[derive(Clone, Copy, Debug)]
pub struct AccountId {
    pub bytes: [u8; 32],
}

impl View for AccountId {
    type V = Seq<u8>;

    open spec fn view(&self) -> Seq<u8> {
        self.bytes@
    }
}

impl AccountId {
    pub fn new(bytes: [u8; 32]) -> (r: AccountId)
        ensures
            r@ == bytes@,
    {
        AccountId { bytes }
    }
}

/// Byte-for-byte comparison of two account identities.
pub fn id_eq(a: &AccountId, b: &AccountId) -> (r: bool)
    ensures
        r == (a@ == b@),
{
    let mut i: usize = 0;
    while i < 32
        invariant
            i <= 32,
            forall|j: int| 0 <= j < i ==> a@[j] == b@[j],
        decreases 32 - i,
    {
        if a.bytes[i] != b.bytes[i] {
            assert(a@[i as int] != b@[i as int]);
            return false;
        }
        i += 1;
    }
    assert(a@ =~= b@);
    true
}

/// Global configuration record: one per deployment owner.
#[derive(Clone, Copy, Debug)]
pub struct GlobalState {
    /// Identity authorized to administer this record and to receive fees.
    pub owner: AccountId,
    /// Fee rate, an integer percentage.
    pub fee: u64,
    /// Upper bound on a single wager amount.
    pub max_bet: u64,
    /// Identity of the associated fund-holding vault account.
    pub vault: AccountId,
}

impl GlobalState {
    /// Configuration invariant: the fee is a percentage in [0, 100].
    /// `initialize` establishes it and every mutation preserves it.
    pub open spec fn wf(&self) -> bool {
        self.fee <= 100
    }
}

/// Per-user bet record, one slot per user, overwritten on every new bet.
///
/// Placing a new bet before claiming the previous one silently abandons the
/// previous claim opportunity: the record keys the randomness request by
/// `force`, and only the current `force` can ever be settled.
#[derive(Clone, Copy, Debug)]
pub struct UserInfo {
    /// Predicted outcome, one bit.
    pub guess: u8,
    /// Wager amount, in the smallest fund unit.
    pub amount: u64,
    /// Identity of the randomness-request record this bet is tied to.
    pub random: AccountId,
    /// Unused slot kept in the record layout.
    pub randomness: u8,
    /// True once payout has been settled for the current `force`.
    pub claimed: bool,
    /// 32-byte nonce that keys the randomness request.
    pub force: [u8; 32],
}

} // verus!
