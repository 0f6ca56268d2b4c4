//! The record store.
//!
//! A ledger keeps every merchant and every session at the address derived from
//! the record's seeds. A record is created only where nothing lives yet, and
//! is never removed. Requests name records by their seeds, an authority for a
//! merchant, an authority and a reference for a session, and the ledger finds
//! the records by deriving their addresses anew.

use crate::accounts::{
    Account, CancelPayment, CreatePaymentSession, InitializeMerchant, MerchantAccount,
    PaymentAccount, ProcessSolPayment, ProcessTokenPayment,
};
use crate::address::{
    is_merchant_address, is_payment_address, merchant_address, merchant_address_of,
    payment_address, payment_address_of, Address,
};
use crate::error::ErrorCode;
use crate::fees::MAX_FEE_BASIS_POINTS;
use crate::merchant::Merchant;
use crate::operations::{
    cancel_payment, create_payment_session, initialize_merchant, process_sol_payment,
    process_token_payment,
};
use crate::payment::{Payment, Route};
use crate::settlement::{settle_outcome, Settlement};
use vstd::prelude::*;

verus! {

/// What a ledger holds: the records by their addresses.
pub struct LedgerView {
    /// The program under which addresses are derived.
    pub program_id: Address,
    /// The merchant records.
    pub merchants: Map<Address, Merchant>,
    /// The session records.
    pub payments: Map<Address, Payment>,
}

impl LedgerView {
    /// Whether a record lives at `address`.
    pub open spec fn occupied(self, address: Address) -> bool {
        self.merchants.dom().contains(address) || self.payments.dom().contains(address)
    }

    /// The address of the merchant record that `authority` controls, if the
    /// ledger holds it.
    pub open spec fn merchant_of(self, authority: Address) -> Option<Address> {
        match merchant_address_of(self.program_id, authority) {
            Some((address, _)) => if self.merchants.dom().contains(address)
                && self.merchants[address].authority == authority {
                Some(address)
            } else {
                None
            },
            None => None,
        }
    }

    /// The address of the session that the merchant at `merchant` opened under
    /// `reference`, if the ledger holds it.
    pub open spec fn payment_of(self, merchant: Address, reference: Address) -> Option<Address> {
        match payment_address_of(self.program_id, merchant, reference) {
            Some((address, _)) => if self.payments.dom().contains(address)
                && self.payments[address].merchant == merchant
                && self.payments[address].reference == reference {
                Some(address)
            } else {
                None
            },
            None => None,
        }
    }

    /// The addresses of the merchant of `authority` and of its session
    /// `reference`, if the ledger holds both.
    pub open spec fn session_of(self, authority: Address, reference: Address) -> Option<
        (Address, Address),
    > {
        match self.merchant_of(authority) {
            Some(merchant) => match self.payment_of(merchant, reference) {
                Some(payment) => Some((merchant, payment)),
                None => None,
            },
            None => None,
        }
    }

    /// The same records, with `merchant` at `address`.
    pub open spec fn with_merchant(self, address: Address, merchant: Merchant) -> LedgerView {
        LedgerView { merchants: self.merchants.insert(address, merchant), ..self }
    }

    /// The same records, with `payment` at `address`.
    pub open spec fn with_payment(self, address: Address, payment: Payment) -> LedgerView {
        LedgerView { payments: self.payments.insert(address, payment), ..self }
    }

    /// Every record keeps its own invariant, every session belongs to a
    /// merchant on the ledger, and no address holds two records.
    pub open spec fn sound(self) -> bool {
        &&& forall|a: Address| #[trigger]
            self.merchants.dom().contains(a) ==> self.merchants[a].valid()
        &&& forall|a: Address| #[trigger]
            self.payments.dom().contains(a) ==> {
                &&& self.payments[a].valid()
                &&& self.merchants.dom().contains(self.payments[a].merchant)
            }
        &&& forall|a: Address|
            !(#[trigger] self.merchants.dom().contains(a) && self.payments.dom().contains(a))
    }

    /// Every record lives at the address derived from its own seeds.
    pub open spec fn bound(self) -> bool {
        &&& forall|a: Address| #[trigger]
            self.merchants.dom().contains(a) ==> is_merchant_address(
                self.program_id,
                self.merchants[a].authority,
                a,
                self.merchants[a].bump,
            )
        &&& forall|a: Address| #[trigger]
            self.payments.dom().contains(a) ==> is_payment_address(
                self.program_id,
                self.payments[a].merchant,
                self.payments[a].reference,
                a,
                self.payments[a].bump,
            )
    }
}

/// Whether one of `entries` lives at `address`.
spec fn holds<T>(entries: Seq<Account<T>>, address: Address) -> bool {
    exists|i: int| 0 <= i < entries.len() && (#[trigger] entries[i]).key == address
}

/// The place among `entries` of the one that lives at `address`.
spec fn slot<T>(entries: Seq<Account<T>>, address: Address) -> int {
    choose|i: int| 0 <= i < entries.len() && (#[trigger] entries[i]).key == address
}

/// Whether no two of `entries` share an address.
spec fn distinct<T>(entries: Seq<Account<T>>) -> bool {
    forall|i: int, j: int|
        0 <= i < j < entries.len() ==> (#[trigger] entries[i]).key != (#[trigger] entries[j]).key
}

/// The records of `entries` by their addresses.
spec fn by_address<T>(entries: Seq<Account<T>>) -> Map<Address, T> {
    Map::new(|a: Address| holds(entries, a), |a: Address| entries[slot(entries, a)].data)
}

proof fn lemma_entry<T>(entries: Seq<Account<T>>, i: int)
    requires
        distinct(entries),
        0 <= i < entries.len(),
    ensures
        holds(entries, entries[i].key),
        slot(entries, entries[i].key) == i,
        by_address(entries).dom().contains(entries[i].key),
        by_address(entries)[entries[i].key] == entries[i].data,
{
    let k = slot(entries, entries[i].key);
    assert(0 <= k < entries.len() && entries[k].key == entries[i].key);
    if k < i {
        assert(entries[k].key != entries[i].key);
    } else if i < k {
        assert(entries[i].key != entries[k].key);
    }
}

proof fn lemma_push<T>(entries: Seq<Account<T>>, entry: Account<T>)
    requires
        distinct(entries),
        !holds(entries, entry.key),
    ensures
        distinct(entries.push(entry)),
        by_address(entries.push(entry)) == by_address(entries).insert(entry.key, entry.data),
{
    let after = entries.push(entry);
    assert forall|i: int, j: int| 0 <= i < j < after.len() implies (#[trigger] after[i]).key != (
    #[trigger] after[j]).key by {
        if j < entries.len() {
            assert(entries[i].key != entries[j].key);
        } else {
            assert(after[j] == entry);
            assert(after[i] == entries[i]);
            if entries[i].key == entry.key {
                assert(holds(entries, entry.key));
            }
        }
    }
    assert forall|a: Address| holds(after, a) <==> (holds(entries, a) || a == entry.key) by {
        if holds(entries, a) {
            let k = slot(entries, a);
            assert(after[k] == entries[k]);
            assert(after[k].key == a);
        }
        if a == entry.key {
            assert(after[entries.len() as int].key == a);
        }
        if holds(after, a) {
            let k = slot(after, a);
            if k < entries.len() {
                assert(entries[k] == after[k]);
                assert(holds(entries, a));
            }
        }
    }
    assert forall|a: Address| holds(after, a) implies by_address(after)[a] == by_address(
        entries,
    ).insert(entry.key, entry.data)[a] by {
        let k = slot(after, a);
        if a == entry.key {
            lemma_entry(after, entries.len() as int);
        } else {
            assert(k < entries.len());
            assert(entries[k] == after[k]);
            lemma_entry(entries, k);
        }
    }
    assert(by_address(after) =~= by_address(entries).insert(entry.key, entry.data));
}

proof fn lemma_update<T>(entries: Seq<Account<T>>, i: int, entry: Account<T>)
    requires
        distinct(entries),
        0 <= i < entries.len(),
        entry.key == entries[i].key,
    ensures
        distinct(entries.update(i, entry)),
        by_address(entries.update(i, entry)) == by_address(entries).insert(entry.key, entry.data),
        forall|a: Address| holds(entries.update(i, entry), a) <==> holds(entries, a),
{
    let after = entries.update(i, entry);
    assert forall|x: int, y: int| 0 <= x < y < after.len() implies (#[trigger] after[x]).key != (
    #[trigger] after[y]).key by {
        assert(after[x].key == entries[x].key);
        assert(after[y].key == entries[y].key);
        assert(entries[x].key != entries[y].key);
    }
    assert forall|a: Address| holds(after, a) <==> holds(entries, a) by {
        if holds(entries, a) {
            let k = slot(entries, a);
            assert(after[k].key == a);
        }
        if holds(after, a) {
            let k = slot(after, a);
            assert(entries[k].key == a);
        }
    }
    lemma_entry(entries, i);
    assert forall|a: Address| holds(after, a) implies by_address(after)[a] == by_address(
        entries,
    ).insert(entry.key, entry.data)[a] by {
        let k = slot(after, a);
        lemma_entry(after, k);
        if k != i {
            assert(after[k] == entries[k]);
            lemma_entry(entries, k);
        }
    }
    assert(by_address(after) =~= by_address(entries).insert(entry.key, entry.data));
}

/// Looks for the entry that lives at `address`.
fn position<T>(entries: &Vec<Account<T>>, address: &Address) -> (found: Option<usize>)
    ensures
        match found {
            Some(i) => i < entries.len() && entries[i as int].key == *address,
            None => !holds(entries@, *address),
        },
{
    let mut i: usize = 0;
    while i < entries.len()
        invariant
            i <= entries.len(),
            forall|k: int| 0 <= k < i ==> (#[trigger] entries[k]).key != *address,
        decreases entries.len() - i,
    {
        if entries[i].key == *address {
            return Some(i);
        }
        i = i + 1;
    }
    None
}

/// The store of all merchant and session records of one program.
#[derive(Debug)]
pub struct Ledger {
    program_id: Address,
    merchants: Vec<MerchantAccount>,
    payments: Vec<PaymentAccount>,
}

impl View for Ledger {
    type V = LedgerView;

    closed spec fn view(&self) -> LedgerView {
        LedgerView {
            program_id: self.program_id,
            merchants: by_address(self.merchants@),
            payments: by_address(self.payments@),
        }
    }
}

impl Ledger {
    /// No address is kept twice.
    pub closed spec fn well_kept(&self) -> bool {
        &&& distinct(self.merchants@)
        &&& distinct(self.payments@)
    }

    /// The invariant of the store: it keeps no address twice and what it holds
    /// is sound.
    pub open spec fn wf(&self) -> bool {
        &&& self.well_kept()
        &&& self@.sound()
    }

    /// An empty ledger for the program `program_id`.
    pub fn new(program_id: Address) -> (ledger: Ledger)
        ensures
            ledger.wf(),
            ledger@.bound(),
            ledger@.program_id == program_id,
            ledger@.merchants == Map::<Address, Merchant>::empty(),
            ledger@.payments == Map::<Address, Payment>::empty(),
    {
        let ledger = Ledger { program_id, merchants: Vec::new(), payments: Vec::new() };
        assert(ledger@.merchants =~= Map::<Address, Merchant>::empty());
        assert(ledger@.payments =~= Map::<Address, Payment>::empty());
        ledger
    }

    /// The program under which the ledger derives addresses.
    pub fn program_id(&self) -> (program_id: Address)
        ensures
            program_id == self@.program_id,
    {
        self.program_id
    }

    /// The merchant record that lives at `address`, if there is one.
    pub fn merchant(&self, address: &Address) -> (found: Option<&Merchant>)
        requires
            self.wf(),
        ensures
            match found {
                Some(merchant) => self@.merchants.dom().contains(*address)
                    && *merchant == self@.merchants[*address],
                None => !self@.merchants.dom().contains(*address),
            },
    {
        match position(&self.merchants, address) {
            Some(i) => {
                proof {
                    lemma_entry(self.merchants@, i as int);
                }
                Some(&self.merchants[i].data)
            },
            None => None,
        }
    }

    /// The session record that lives at `address`, if there is one.
    pub fn payment(&self, address: &Address) -> (found: Option<&Payment>)
        requires
            self.wf(),
        ensures
            match found {
                Some(payment) => self@.payments.dom().contains(*address)
                    && *payment == self@.payments[*address],
                None => !self@.payments.dom().contains(*address),
            },
    {
        match position(&self.payments, address) {
            Some(i) => {
                proof {
                    lemma_entry(self.payments@, i as int);
                }
                Some(&self.payments[i].data)
            },
            None => None,
        }
    }

    /// Whether a record lives at `address`.
    pub fn is_occupied(&self, address: &Address) -> (occupied: bool)
        ensures
            occupied == self@.occupied(*address),
    {
        position(&self.merchants, address).is_some() || position(&self.payments, address).is_some()
    }

    /// Registers the merchant that `authority` controls, at the address
    /// derived from `authority`.
    ///
    /// `None`, and nothing changed, where no address can be derived. Otherwise
    /// refused with `FeeTooHigh` where the rate exceeds
    /// `MAX_FEE_BASIS_POINTS`, else with `AddressOccupied` where a record
    /// already lives at the address. Else the new record is kept, with both
    /// counters at zero, and its address returned.
    pub fn register_merchant(&mut self, authority: Address, name: String, fee_basis_points: u16)
        -> (result: Option<Result<Address, ErrorCode>>)
        requires
            old(self).wf(),
        ensures
            final(self).wf(),
            old(self)@.bound() ==> final(self)@.bound(),
            match merchant_address_of(old(self)@.program_id, authority) {
                None => result is None && final(self)@ == old(self)@,
                Some((address, bump)) => if fee_basis_points > MAX_FEE_BASIS_POINTS {
                    &&& result == Some(Err::<Address, ErrorCode>(ErrorCode::FeeTooHigh))
                    &&& final(self)@ == old(self)@
                } else if old(self)@.occupied(address) {
                    &&& result == Some(Err::<Address, ErrorCode>(ErrorCode::AddressOccupied))
                    &&& final(self)@ == old(self)@
                } else {
                    &&& result == Some(Ok::<Address, ErrorCode>(address))
                    &&& final(self)@ == old(self)@.with_merchant(
                        address,
                        Merchant {
                            authority,
                            name,
                            fee_basis_points,
                            total_payments: 0,
                            total_volume: 0,
                            bump,
                        },
                    )
                },
            },
    {
        let (address, bump) = match merchant_address(&self.program_id, &authority) {
            Some(found) => found,
            None => { return None; },
        };
        let ctx = InitializeMerchant {
            program_id: self.program_id,
            merchant: address,
            authority,
            bump,
        };
        let account = match initialize_merchant(&ctx, name, fee_basis_points) {
            Ok(account) => account,
            Err(code) => { return Some(Err(code)); },
        };
        if self.is_occupied(&address) {
            return Some(Err(ErrorCode::AddressOccupied));
        }
        proof {
            lemma_push(self.merchants@, account);
        }
        self.merchants.push(account);
        assert(final(self)@ =~= old(self)@.with_merchant(address, account.data));
        Some(Ok(address))
    }

    /// Finds the merchant record that `authority` controls.
    fn locate_merchant(&self, authority: &Address) -> (found: Option<usize>)
        requires
            self.wf(),
        ensures
            match found {
                Some(i) => {
                    &&& i < self.merchants@.len()
                    &&& self@.merchant_of(*authority) == Some(self.merchants@[i as int].key)
                    &&& self@.merchants[self.merchants@[i as int].key]
                        == self.merchants@[i as int].data
                },
                None => self@.merchant_of(*authority) is None,
            },
    {
        let address = match merchant_address(&self.program_id, authority) {
            Some((address, _)) => address,
            None => { return None; },
        };
        match position(&self.merchants, &address) {
            Some(i) => {
                proof {
                    lemma_entry(self.merchants@, i as int);
                }
                if self.merchants[i].data.authority == *authority {
                    Some(i)
                } else {
                    None
                }
            },
            None => None,
        }
    }

    /// Finds the session that the merchant at `merchant` opened under
    /// `reference`.
    fn locate_payment(&self, merchant: &Address, reference: &Address) -> (found: Option<usize>)
        requires
            self.wf(),
        ensures
            match found {
                Some(i) => {
                    &&& i < self.payments@.len()
                    &&& self@.payment_of(*merchant, *reference) == Some(
                        self.payments@[i as int].key,
                    )
                    &&& self@.payments[self.payments@[i as int].key]
                        == self.payments@[i as int].data
                },
                None => self@.payment_of(*merchant, *reference) is None,
            },
    {
        let address = match payment_address(&self.program_id, merchant, reference) {
            Some((address, _)) => address,
            None => { return None; },
        };
        match position(&self.payments, &address) {
            Some(i) => {
                proof {
                    lemma_entry(self.payments@, i as int);
                }
                if self.payments[i].data.merchant == *merchant && self.payments[i].data.reference
                    == *reference {
                    Some(i)
                } else {
                    None
                }
            },
            None => None,
        }
    }

    /// Keeps the two records that a settlement or a cancellation has changed.
    fn keep(&mut self, i: usize, merchant: MerchantAccount, j: usize, payment: PaymentAccount)
        requires
            old(self).wf(),
            i < old(self).merchants@.len(),
            j < old(self).payments@.len(),
            merchant.key == old(self).merchants@[i as int].key,
            payment.key == old(self).payments@[j as int].key,
            merchant.data.valid(),
            payment.data.valid(),
            payment.data.merchant == old(self).payments@[j as int].data.merchant,
        ensures
            final(self).wf(),
            final(self)@ == old(self)@.with_merchant(merchant.key, merchant.data).with_payment(
                payment.key,
                payment.data,
            ),
    {
        proof {
            lemma_update(self.merchants@, i as int, merchant);
            lemma_update(self.payments@, j as int, payment);
            lemma_entry(self.merchants@, i as int);
            lemma_entry(self.payments@, j as int);
        }
        self.merchants[i] = merchant;
        self.payments[j] = payment;
        assert(final(self)@ =~= old(self)@.with_merchant(merchant.key, merchant.data).with_payment(
            payment.key,
            payment.data,
        ));
    }

    /// Opens a session of the merchant that `authority` controls, at the
    /// address derived from the merchant and `reference`.
    ///
    /// `None`, and nothing changed, where the ledger holds no merchant of
    /// `authority` or no address can be derived. Otherwise refused with
    /// `InvalidExpiry` where `expiry` does not lie after `now`, else with
    /// `AddressOccupied` where a record already lives at the address. Else the
    /// new session is kept, open, and its address returned.
    pub fn open_payment_session(
        &mut self,
        authority: Address,
        amount: u64,
        reference: Address,
        memo: String,
        expiry: i64,
        token_mint: Option<Address>,
        now: i64,
    ) -> (result: Option<Result<Address, ErrorCode>>)
        requires
            old(self).wf(),
            amount > 0,
        ensures
            final(self).wf(),
            old(self)@.bound() ==> final(self)@.bound(),
            match old(self)@.merchant_of(authority) {
                None => result is None && final(self)@ == old(self)@,
                Some(merchant) => match payment_address_of(
                    old(self)@.program_id,
                    merchant,
                    reference,
                ) {
                    None => result is None && final(self)@ == old(self)@,
                    Some((address, bump)) => if expiry <= now {
                        &&& result == Some(Err::<Address, ErrorCode>(ErrorCode::InvalidExpiry))
                        &&& final(self)@ == old(self)@
                    } else if old(self)@.occupied(address) {
                        &&& result == Some(Err::<Address, ErrorCode>(ErrorCode::AddressOccupied))
                        &&& final(self)@ == old(self)@
                    } else {
                        &&& result == Some(Ok::<Address, ErrorCode>(address))
                        &&& final(self)@ == old(self)@.with_payment(
                            address,
                            Payment {
                                merchant,
                                amount,
                                reference,
                                memo,
                                created_at: now,
                                expires_at: expiry,
                                paid: false,
                                cancelled: false,
                                paid_at: None,
                                payer: None,
                                cancelled_at: None,
                                token_mint,
                                bump,
                            },
                        )
                    },
                },
            },
    {
        let i = match self.locate_merchant(&authority) {
            Some(i) => i,
            None => { return None; },
        };
        let merchant = Account { key: self.merchants[i].key, data: self.merchants[i].data.clone() };
        let (address, bump) = match payment_address(&self.program_id, &merchant.key, &reference) {
            Some(found) => found,
            None => { return None; },
        };
        let ctx = CreatePaymentSession {
            program_id: self.program_id,
            merchant,
            payment: address,
            authority,
            bump,
        };
        let account = match create_payment_session(
            &ctx,
            amount,
            reference,
            memo,
            expiry,
            token_mint,
            now,
        ) {
            Ok(account) => account,
            Err(code) => { return Some(Err(code)); },
        };
        if self.is_occupied(&address) {
            return Some(Err(ErrorCode::AddressOccupied));
        }
        proof {
            lemma_push(self.payments@, account);
        }
        self.payments.push(account);
        assert(final(self)@ =~= old(self)@.with_payment(address, account.data));
        Some(Ok(address))
    }

    /// Settles the session `reference` of the merchant of `authority` in the
    /// native asset, paid by `payer`, the fee going to `fee_collector`.
    ///
    /// `None`, and nothing changed, where the ledger holds no such session.
    /// Otherwise as `process_sol_payment` decides on the two records, with the
    /// merchant's authority as the wallet that is paid: on success both
    /// records are kept as changed and the transfers returned, on refusal
    /// nothing changes.
    pub fn settle_native(
        &mut self,
        authority: Address,
        reference: Address,
        payer: Address,
        fee_collector: Address,
        now: i64,
    ) -> (result: Option<Result<Settlement, ErrorCode>>)
        requires
            old(self).wf(),
        ensures
            final(self).wf(),
            old(self)@.bound() ==> final(self)@.bound(),
            match old(self)@.session_of(authority, reference) {
                None => result is None && final(self)@ == old(self)@,
                Some((merchant, payment)) => match settle_outcome(
                    old(self)@.merchants[merchant],
                    old(self)@.payments[payment],
                    Route::Native,
                    now,
                    payer,
                    payer,
                    authority,
                    fee_collector,
                ) {
                    Ok((merchant_after, payment_after, settlement)) => {
                        &&& result == Some(Ok::<Settlement, ErrorCode>(settlement))
                        &&& final(self)@ == old(self)@.with_merchant(
                            merchant,
                            merchant_after,
                        ).with_payment(payment, payment_after)
                    },
                    Err(code) => {
                        &&& result == Some(Err::<Settlement, ErrorCode>(code))
                        &&& final(self)@ == old(self)@
                    },
                },
            },
    {
        let i = match self.locate_merchant(&authority) {
            Some(i) => i,
            None => { return None; },
        };
        let merchant_key = self.merchants[i].key;
        let j = match self.locate_payment(&merchant_key, &reference) {
            Some(j) => j,
            None => { return None; },
        };
        proof {
            lemma_entry(self.merchants@, i as int);
            lemma_entry(self.payments@, j as int);
        }
        let mut ctx = ProcessSolPayment {
            program_id: self.program_id,
            merchant: Account { key: merchant_key, data: self.merchants[i].data.clone() },
            payment: Account { key: self.payments[j].key, data: self.payments[j].data.clone() },
            payer,
            merchant_wallet: authority,
            fee_collector,
        };
        match process_sol_payment(&mut ctx, now) {
            Ok(settlement) => {
                self.keep(i, ctx.merchant, j, ctx.payment);
                Some(Ok(settlement))
            },
            Err(code) => Some(Err(code)),
        }
    }

    /// Settles the session `reference` of the merchant of `authority` in the
    /// token `mint`, paid by `payer` out of `payer_token_account`.
    ///
    /// `None`, and nothing changed, where the ledger holds no such session.
    /// Otherwise as `process_token_payment` decides on the two records: on
    /// success both records are kept as changed and the transfers returned, on
    /// refusal nothing changes.
    pub fn settle_token(
        &mut self,
        authority: Address,
        reference: Address,
        mint: Address,
        payer: Address,
        payer_token_account: Address,
        merchant_token_account: Address,
        fee_collector_token_account: Address,
        fee_collector: Address,
        now: i64,
    ) -> (result: Option<Result<Settlement, ErrorCode>>)
        requires
            old(self).wf(),
        ensures
            final(self).wf(),
            old(self)@.bound() ==> final(self)@.bound(),
            match old(self)@.session_of(authority, reference) {
                None => result is None && final(self)@ == old(self)@,
                Some((merchant, payment)) => match settle_outcome(
                    old(self)@.merchants[merchant],
                    old(self)@.payments[payment],
                    Route::Token(mint),
                    now,
                    payer,
                    payer_token_account,
                    merchant_token_account,
                    fee_collector_token_account,
                ) {
                    Ok((merchant_after, payment_after, settlement)) => {
                        &&& result == Some(Ok::<Settlement, ErrorCode>(settlement))
                        &&& final(self)@ == old(self)@.with_merchant(
                            merchant,
                            merchant_after,
                        ).with_payment(payment, payment_after)
                    },
                    Err(code) => {
                        &&& result == Some(Err::<Settlement, ErrorCode>(code))
                        &&& final(self)@ == old(self)@
                    },
                },
            },
    {
        let i = match self.locate_merchant(&authority) {
            Some(i) => i,
            None => { return None; },
        };
        let merchant_key = self.merchants[i].key;
        let j = match self.locate_payment(&merchant_key, &reference) {
            Some(j) => j,
            None => { return None; },
        };
        proof {
            lemma_entry(self.merchants@, i as int);
            lemma_entry(self.payments@, j as int);
        }
        let mut ctx = ProcessTokenPayment {
            program_id: self.program_id,
            merchant: Account { key: merchant_key, data: self.merchants[i].data.clone() },
            payment: Account { key: self.payments[j].key, data: self.payments[j].data.clone() },
            mint,
            payer,
            payer_token_account,
            merchant_token_account,
            fee_collector_token_account,
            fee_collector,
            authority,
        };
        match process_token_payment(&mut ctx, now) {
            Ok(settlement) => {
                self.keep(i, ctx.merchant, j, ctx.payment);
                Some(Ok(settlement))
            },
            Err(code) => Some(Err(code)),
        }
    }

    /// Cancels the session `reference` of the merchant of `authority` on
    /// behalf of `caller`.
    ///
    /// `None`, and nothing changed, where the ledger holds no such session.
    /// Otherwise as `cancel_payment` decides: on success the session is kept
    /// as cancelled at `now`, on refusal nothing changes.
    pub fn cancel_payment_session(
        &mut self,
        authority: Address,
        reference: Address,
        caller: Address,
        now: i64,
    ) -> (result: Option<Result<(), ErrorCode>>)
        requires
            old(self).wf(),
        ensures
            final(self).wf(),
            old(self)@.bound() ==> final(self)@.bound(),
            match old(self)@.session_of(authority, reference) {
                None => result is None && final(self)@ == old(self)@,
                Some((merchant, payment)) => {
                    &&& result == Some(
                        old(self)@.payments[payment].cancel_verdict(authority, caller, now),
                    )
                    &&& result == Some(Ok::<(), ErrorCode>(())) ==> final(self)@ == old(
                        self,
                    )@.with_payment(payment, old(self)@.payments[payment].called_off(now))
                    &&& result != Some(Ok::<(), ErrorCode>(())) ==> final(self)@ == old(self)@
                },
            },
    {
        let i = match self.locate_merchant(&authority) {
            Some(i) => i,
            None => { return None; },
        };
        let merchant_key = self.merchants[i].key;
        let j = match self.locate_payment(&merchant_key, &reference) {
            Some(j) => j,
            None => { return None; },
        };
        proof {
            lemma_entry(self.merchants@, i as int);
            lemma_entry(self.payments@, j as int);
        }
        let mut ctx = CancelPayment {
            program_id: self.program_id,
            merchant: Account { key: merchant_key, data: self.merchants[i].data.clone() },
            payment: Account { key: self.payments[j].key, data: self.payments[j].data.clone() },
            authority: caller,
        };
        match cancel_payment(&mut ctx, now) {
            Ok(()) => {
                let ghost before = self@;
                let ghost payment_key = ctx.payment.key;
                let ghost payment_after = ctx.payment.data;
                assert(before.merchants.insert(ctx.merchant.key, ctx.merchant.data)
                    =~= before.merchants);
                self.keep(i, ctx.merchant, j, ctx.payment);
                assert(self@ =~= before.with_payment(payment_key, payment_after));
                Some(Ok(()))
            },
            Err(code) => Some(Err(code)),
        }
    }
}

} // verus!
