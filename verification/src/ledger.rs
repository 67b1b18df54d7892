//! The ledger: settlement balances and the custody of collectibles.
//!
//! A ledger keeps a balance for each account and a holder for each registered
//! collectible.  Its only ways of moving value are [`Ledger::transfer`] and
//! [`Ledger::transfer_asset`]; each either takes effect as a whole or fails
//! and leaves the ledger as it was.

use vstd::prelude::*;
use crate::error::Error;
use crate::identity::Identity;

verus! {

/// What a ledger holds: the balance of each account and the holder of each
/// registered collectible.
pub struct LedgerState {
    pub balances: Map<Identity, nat>,
    pub holders: Map<Identity, Identity>,
}

impl LedgerState {
    /// No account is kept under the default identity, and every balance fits
    /// in 64 bits.
    pub open spec fn wf(self) -> bool {
        &&& !self.balances.contains_key(Identity::spec_default())
        &&& forall|id: Identity|
            self.balances.contains_key(id) ==> #[trigger] self.balances[id] <= u64::MAX
    }

    /// The ledger without accounts or collectibles.
    pub open spec fn empty() -> LedgerState {
        LedgerState { balances: Map::empty(), holders: Map::empty() }
    }

    /// Opening an account under `id` with an initial balance.  Refused for the
    /// default identity and for an identity that has an account already.
    pub open spec fn open_account_result(self, id: Identity, balance: nat) -> Result<
        LedgerState,
        Error,
    > {
        if id.is_default() || self.balances.contains_key(id) {
            Err(Error::InvalidAccount)
        } else {
            Ok(LedgerState { balances: self.balances.insert(id, balance), ..self })
        }
    }

    /// Registering a collectible in the custody of `holder`.  Refused for a
    /// collectible that is registered already.
    pub open spec fn register_asset_result(self, asset: Identity, holder: Identity) -> Result<
        LedgerState,
        Error,
    > {
        if self.holders.contains_key(asset) {
            Err(Error::InvalidAsset)
        } else {
            Ok(LedgerState { holders: self.holders.insert(asset, holder), ..self })
        }
    }

    /// Debiting `from` and crediting `to` by `amount`.
    ///
    /// Refused with `InvalidAccount` where either side has no account, with
    /// `InsufficientFunds` where `from` holds less than `amount`, and with
    /// `TransferFailed` where the balance of `to` would no longer fit in 64
    /// bits.  A transfer from an account to itself changes nothing.
    pub open spec fn transfer_result(self, from: Identity, to: Identity, amount: nat) -> Result<
        LedgerState,
        Error,
    > {
        if !self.balances.contains_key(from) {
            Err(Error::InvalidAccount)
        } else if self.balances[from] < amount {
            Err(Error::InsufficientFunds)
        } else if !self.balances.contains_key(to) {
            Err(Error::InvalidAccount)
        } else {
            let debited = self.balances.insert(from, (self.balances[from] - amount) as nat);
            if debited[to] + amount > u64::MAX {
                Err(Error::TransferFailed)
            } else {
                Ok(LedgerState { balances: debited.insert(to, debited[to] + amount), ..self })
            }
        }
    }

    /// Moving a collectible from the custody of `from` into that of `to`.
    ///
    /// Refused with `InvalidAsset` where the collectible is not registered and
    /// with `Unauthorized` where `from` is not its holder.
    pub open spec fn transfer_asset_result(
        self,
        asset: Identity,
        from: Identity,
        to: Identity,
    ) -> Result<LedgerState, Error> {
        if !self.holders.contains_key(asset) {
            Err(Error::InvalidAsset)
        } else if self.holders[asset] != from {
            Err(Error::Unauthorized)
        } else {
            Ok(LedgerState { holders: self.holders.insert(asset, to), ..self })
        }
    }
}

/// Whether an operation that answered `answer` and took the state from
/// `before` to `after` did what `expected` says: on success the state is the
/// expected one, on failure the error is the expected one and nothing changed.
pub open spec fn settles<S>(
    answer: Result<(), Error>,
    before: S,
    after: S,
    expected: Result<S, Error>,
) -> bool {
    match answer {
        Ok(()) => expected == Ok::<S, Error>(after),
        Err(e) => expected == Err::<S, Error>(e) && after == before,
    }
}

/// The map that sends each key of `keys` to the value at the same position.
spec fn table<V>(keys: Seq<Identity>, values: Seq<V>) -> Map<Identity, V> {
    Map::new(|id: Identity| keys.contains(id), |id: Identity| values[keys.index_of(id)])
}

/// The balances as natural numbers.
spec fn amounts(balances: Seq<u64>) -> Seq<nat> {
    Seq::new(balances.len(), |i: int| balances[i] as nat)
}

proof fn lemma_table_at<V>(keys: Seq<Identity>, values: Seq<V>, i: int)
    requires
        keys.no_duplicates(),
        keys.len() == values.len(),
        0 <= i < keys.len(),
    ensures
        table(keys, values).contains_key(keys[i]),
        table(keys, values)[keys[i]] == values[i],
{
    assert(keys.contains(keys[i]));
}

proof fn lemma_table_update<V>(keys: Seq<Identity>, values: Seq<V>, i: int, v: V)
    requires
        keys.no_duplicates(),
        keys.len() == values.len(),
        0 <= i < keys.len(),
    ensures
        table(keys, values.update(i, v)) == table(keys, values).insert(keys[i], v),
{
    let updated = table(keys, values.update(i, v));
    let inserted = table(keys, values).insert(keys[i], v);
    assert(keys.contains(keys[i]));
    assert forall|id: Identity| updated.contains_key(id) implies #[trigger] updated[id]
        == inserted[id] by {
        let k = keys.index_of(id);
        if id != keys[i] {
            assert(k != i);
        }
    }
    assert(updated =~= inserted);
}

proof fn lemma_table_push<V>(keys: Seq<Identity>, values: Seq<V>, id: Identity, v: V)
    requires
        keys.no_duplicates(),
        keys.len() == values.len(),
        !keys.contains(id),
    ensures
        keys.push(id).no_duplicates(),
        table(keys.push(id), values.push(v)) == table(keys, values).insert(id, v),
{
    let grown = keys.push(id);
    let pushed = table(grown, values.push(v));
    let inserted = table(keys, values).insert(id, v);
    assert forall|i: int, j: int| 0 <= i < grown.len() && 0 <= j < grown.len() && i != j implies
        grown[i] != grown[j] by {
        if i < keys.len() {
            assert(keys.contains(keys[i]));
        }
        if j < keys.len() {
            assert(keys.contains(keys[j]));
        }
    }
    assert(grown[keys.len() as int] == id);
    assert forall|other: Identity| pushed.contains_key(other) <==> inserted.contains_key(
        other,
    ) by {
        if keys.contains(other) {
            let k = keys.index_of(other);
            assert(grown[k] == other);
        }
        if grown.contains(other) && other != id {
            let k = grown.index_of(other);
            assert(keys[k] == other);
        }
    }
    assert forall|other: Identity| pushed.contains_key(other) implies #[trigger] pushed[other]
        == inserted[other] by {
        let k = grown.index_of(other);
        if other != id {
            assert(keys[k] == other);
            let k0 = keys.index_of(other);
            assert(grown[k0] == other);
        }
    }
    assert(pushed =~= inserted);
}

/// Finds the position of `id` among `keys`.
fn position(keys: &Vec<Identity>, id: &Identity) -> (found: Option<usize>)
    ensures
        match found {
            Some(i) => i < keys@.len() && keys@[i as int] == *id,
            None => !keys@.contains(*id),
        },
{
    let mut i: usize = 0;
    while i < keys.len()
        invariant
            i <= keys@.len(),
            forall|k: int| 0 <= k < i ==> keys@[k] != *id,
        decreases keys@.len() - i,
    {
        if keys[i] == *id {
            return Some(i);
        }
        i += 1;
    }
    None
}

/// An in-memory ledger of settlement balances and of the custody of
/// collectibles.
pub struct Ledger {
    account_ids: Vec<Identity>,
    balances: Vec<u64>,
    asset_ids: Vec<Identity>,
    holders: Vec<Identity>,
}

impl View for Ledger {
    type V = LedgerState;

    closed spec fn view(&self) -> LedgerState {
        LedgerState {
            balances: table(self.account_ids@, amounts(self.balances@)),
            holders: table(self.asset_ids@, self.holders@),
        }
    }
}

impl Ledger {
    /// Each account and each collectible is kept once, and no account is kept
    /// under the default identity.
    pub closed spec fn wf(&self) -> bool {
        &&& self.account_ids@.len() == self.balances@.len()
        &&& self.asset_ids@.len() == self.holders@.len()
        &&& self.account_ids@.no_duplicates()
        &&& self.asset_ids@.no_duplicates()
        &&& !self.account_ids@.contains(Identity::spec_default())
    }

    /// What a well-formed ledger holds is well formed.
    pub proof fn lemma_view_wf(&self)
        requires
            self.wf(),
        ensures
            self@.wf(),
    {
        assert forall|id: Identity| self@.balances.contains_key(id) implies
            #[trigger] self@.balances[id] <= u64::MAX by {
            let k = self.account_ids@.index_of(id);
            assert(amounts(self.balances@)[k] == self.balances@[k] as nat);
        }
    }

    /// A ledger without accounts or collectibles.
    pub fn new() -> (ledger: Ledger)
        ensures
            ledger.wf(),
            ledger@ == LedgerState::empty(),
    {
        let ledger = Ledger {
            account_ids: Vec::new(),
            balances: Vec::new(),
            asset_ids: Vec::new(),
            holders: Vec::new(),
        };
        proof {
            assert(ledger@.balances =~= Map::<Identity, nat>::empty());
            assert(ledger@.holders =~= Map::<Identity, Identity>::empty());
        }
        ledger
    }

    /// Opens an account under `id` with the balance given.
    pub fn open_account(&mut self, id: Identity, balance: u64) -> (answer: Result<(), Error>)
        requires
            old(self).wf(),
        ensures
            final(self).wf(),
            settles(
                answer,
                old(self)@,
                final(self)@,
                old(self)@.open_account_result(id, balance as nat),
            ),
    {
        if id.is_nobody() {
            return Err(Error::InvalidAccount);
        }
        if position(&self.account_ids, &id).is_some() {
            return Err(Error::InvalidAccount);
        }
        proof {
            lemma_table_push(
                old(self).account_ids@,
                amounts(old(self).balances@),
                id,
                balance as nat,
            );
        }
        self.account_ids.push(id);
        self.balances.push(balance);
        proof {
            assert(amounts(self.balances@) =~= amounts(old(self).balances@).push(balance as nat));
            let grown = self.account_ids@;
            if grown.contains(Identity::spec_default()) {
                let k = grown.index_of(Identity::spec_default());
                assert(old(self).account_ids@[k] == Identity::spec_default());
            }
        }
        Ok(())
    }

    /// Registers a collectible in the custody of `holder`.
    pub fn register_asset(
        &mut self,
        asset: Identity,
        holder: Identity,
    ) -> (answer: Result<(), Error>)
        requires
            old(self).wf(),
        ensures
            final(self).wf(),
            settles(
                answer,
                old(self)@,
                final(self)@,
                old(self)@.register_asset_result(asset, holder),
            ),
    {
        if position(&self.asset_ids, &asset).is_some() {
            return Err(Error::InvalidAsset);
        }
        proof {
            lemma_table_push(old(self).asset_ids@, old(self).holders@, asset, holder);
        }
        self.asset_ids.push(asset);
        self.holders.push(holder);
        Ok(())
    }

    /// The balance of the account kept under `id`, if there is one.
    pub fn balance_of(&self, id: Identity) -> (balance: Option<u64>)
        requires
            self.wf(),
        ensures
            match balance {
                Some(b) => self@.balances.contains_key(id) && self@.balances[id] == b,
                None => !self@.balances.contains_key(id),
            },
    {
        match position(&self.account_ids, &id) {
            Some(i) => {
                proof {
                    lemma_table_at(self.account_ids@, amounts(self.balances@), i as int);
                }
                Some(self.balances[i])
            },
            None => None,
        }
    }

    /// The holder of the collectible `asset`, if it is registered.
    pub fn holder_of(&self, asset: Identity) -> (holder: Option<Identity>)
        requires
            self.wf(),
        ensures
            match holder {
                Some(h) => self@.holders.contains_key(asset) && self@.holders[asset] == h,
                None => !self@.holders.contains_key(asset),
            },
    {
        match position(&self.asset_ids, &asset) {
            Some(i) => {
                proof {
                    lemma_table_at(self.asset_ids@, self.holders@, i as int);
                }
                Some(self.holders[i])
            },
            None => None,
        }
    }

    /// Moves `amount` from the account of `from` to the account of `to`, or
    /// fails and changes nothing.
    pub fn transfer(
        &mut self,
        from: Identity,
        to: Identity,
        amount: u64,
    ) -> (answer: Result<(), Error>)
        requires
            old(self).wf(),
        ensures
            final(self).wf(),
            settles(
                answer,
                old(self)@,
                final(self)@,
                old(self)@.transfer_result(from, to, amount as nat),
            ),
    {
        let i = match position(&self.account_ids, &from) {
            Some(i) => i,
            None => {
                return Err(Error::InvalidAccount);
            },
        };
        proof {
            lemma_table_at(self.account_ids@, amounts(self.balances@), i as int);
        }
        let source: u64 = self.balances[i];
        if source < amount {
            return Err(Error::InsufficientFunds);
        }
        let j = match position(&self.account_ids, &to) {
            Some(j) => j,
            None => {
                return Err(Error::InvalidAccount);
            },
        };
        proof {
            lemma_table_at(self.account_ids@, amounts(self.balances@), j as int);
        }
        let ghost before = self@.balances;
        let ghost debited = before.insert(from, (source - amount) as nat);
        if i == j {
            proof {
                assert(debited.insert(to, (debited[to] + amount) as nat) =~= before);
            }
            return Ok(());
        }
        let target: u64 = self.balances[j];
        if target > u64::MAX - amount {
            return Err(Error::TransferFailed);
        }
        self.balances.set(i, source - amount);
        proof {
            lemma_table_update(
                self.account_ids@,
                amounts(old(self).balances@),
                i as int,
                (source - amount) as nat,
            );
            assert(amounts(self.balances@) =~= amounts(old(self).balances@).update(
                i as int,
                (source - amount) as nat,
            ));
            lemma_table_update(
                self.account_ids@,
                amounts(self.balances@),
                j as int,
                (target + amount) as nat,
            );
        }
        let ghost halfway = self.balances@;
        self.balances.set(j, target + amount);
        proof {
            assert(amounts(self.balances@) =~= amounts(halfway).update(
                j as int,
                (target + amount) as nat,
            ));
        }
        Ok(())
    }

    /// Takes back the transfer of `amount` from `from` to `to` that has just
    /// turned `before` into this ledger.
    pub(crate) fn revert_transfer(
        &mut self,
        from: Identity,
        to: Identity,
        amount: u64,
        Ghost(before): Ghost<LedgerState>,
    )
        requires
            old(self).wf(),
            before.wf(),
            before.transfer_result(from, to, amount as nat) == Ok::<LedgerState, Error>(
                old(self)@,
            ),
        ensures
            final(self).wf(),
            final(self)@ == before,
    {
        let ghost reverted = self@.transfer_result(to, from, amount as nat);
        proof {
            assert(reverted is Ok);
            assert(reverted->Ok_0.balances =~= before.balances);
        }
        let _ = self.transfer(to, from, amount);
    }

    /// Moves the collectible `asset` from the custody of `from` into that of
    /// `to`, or fails and changes nothing.
    pub fn transfer_asset(
        &mut self,
        asset: Identity,
        from: Identity,
        to: Identity,
    ) -> (answer: Result<(), Error>)
        requires
            old(self).wf(),
        ensures
            final(self).wf(),
            settles(
                answer,
                old(self)@,
                final(self)@,
                old(self)@.transfer_asset_result(asset, from, to),
            ),
    {
        let i = match position(&self.asset_ids, &asset) {
            Some(i) => i,
            None => {
                return Err(Error::InvalidAsset);
            },
        };
        proof {
            lemma_table_at(self.asset_ids@, self.holders@, i as int);
            lemma_table_update(self.asset_ids@, self.holders@, i as int, to);
        }
        if self.holders[i] != from {
            return Err(Error::Unauthorized);
        }
        self.holders.set(i, to);
        Ok(())
    }
}

} // verus!
