//! The balance of one client: available and held funds, a lock and a version.

use crate::decimal::Decimal4;
use crate::transaction::bump_version;
use crate::transaction::next_version;
use vstd::prelude::*;

verus! {

/// Why an account refused an operation.
#[derive(Debug, Clone, Copy, PartialEq, Eq, Structural)]
pub enum AccountUpdateError {
    /// A locked account takes no deposit and no withdrawal.
    AccountLocked,
    /// The withdrawal asks for more than is available.
    InsufficientFunds,
    /// The amount is zero or negative.
    AmountIsNotPositive,
}

/// What an account holds, with the balances in ten-thousandths.
pub ghost struct AccountView {
    pub id: u16,
    pub available: int,
    pub held: int,
    pub locked: bool,
    pub version: u16,
}

impl AccountView {
    /// A fresh account: empty, unlocked, at version 0.
    pub open spec fn new(id: u16) -> AccountView {
        AccountView { id, available: 0, held: 0, locked: false, version: 0 }
    }

    /// Available and held funds together.
    pub open spec fn total(self) -> int {
        self.available + self.held
    }

    /// Whether both balances are amounts that a [`Decimal4`] holds.
    pub open spec fn representable(self) -> bool {
        i64::MIN <= self.available <= i64::MAX && i64::MIN <= self.held <= i64::MAX
    }

    /// Whether neither balance is negative.
    pub open spec fn solvent(self) -> bool {
        self.available >= 0 && self.held >= 0
    }

    /// The account after a deposit of `amount`, or the rejection.
    pub open spec fn deposit(self, amount: int) -> Result<AccountView, AccountUpdateError> {
        if amount <= 0 {
            Err(AccountUpdateError::AmountIsNotPositive)
        } else if self.locked {
            Err(AccountUpdateError::AccountLocked)
        } else {
            Ok(
                AccountView {
                    available: self.available + amount,
                    version: next_version(self.version),
                    ..self
                },
            )
        }
    }

    /// The account after a withdrawal of `amount`, or the rejection.
    pub open spec fn withdraw(self, amount: int) -> Result<AccountView, AccountUpdateError> {
        if amount <= 0 {
            Err(AccountUpdateError::AmountIsNotPositive)
        } else if self.locked {
            Err(AccountUpdateError::AccountLocked)
        } else if amount > self.available {
            Err(AccountUpdateError::InsufficientFunds)
        } else {
            Ok(
                AccountView {
                    available: self.available - amount,
                    version: next_version(self.version),
                    ..self
                },
            )
        }
    }

    /// The account after `amount` moved from available to held, or the
    /// rejection. A lock does not stand in the way.
    pub open spec fn dispute(self, amount: int) -> Result<AccountView, AccountUpdateError> {
        if amount <= 0 {
            Err(AccountUpdateError::AmountIsNotPositive)
        } else {
            Ok(
                AccountView {
                    available: self.available - amount,
                    held: self.held + amount,
                    version: next_version(self.version),
                    ..self
                },
            )
        }
    }

    /// The account after `amount` moved from held back to available, or the
    /// rejection. A lock does not stand in the way.
    pub open spec fn resolve(self, amount: int) -> Result<AccountView, AccountUpdateError> {
        if amount <= 0 {
            Err(AccountUpdateError::AmountIsNotPositive)
        } else {
            Ok(
                AccountView {
                    available: self.available + amount,
                    held: self.held - amount,
                    version: next_version(self.version),
                    ..self
                },
            )
        }
    }

    /// The account after `amount` left the held funds for good, which locks
    /// it, or the rejection.
    pub open spec fn chargeback(self, amount: int) -> Result<AccountView, AccountUpdateError> {
        if amount <= 0 {
            Err(AccountUpdateError::AmountIsNotPositive)
        } else {
            Ok(
                AccountView {
                    held: self.held - amount,
                    locked: true,
                    version: next_version(self.version),
                    ..self
                },
            )
        }
    }
}

/// Whether `outcome` is a rejection, or an account whose balances a
/// [`Decimal4`] holds.
pub open spec fn fits(outcome: Result<AccountView, AccountUpdateError>) -> bool {
    outcome matches Ok(next) ==> next.representable()
}

/// What an operation on an account promises: on success the account is the
/// one that `outcome` names, on rejection it is unchanged and the error is
/// the one that `outcome` names.
pub open spec fn applied(
    before: AccountView,
    after: AccountView,
    outcome: Result<AccountView, AccountUpdateError>,
    r: Result<(), AccountUpdateError>,
) -> bool {
    match r {
        Ok(()) => outcome == Ok::<AccountView, AccountUpdateError>(after),
        Err(e) => outcome == Err::<AccountView, AccountUpdateError>(e) && after == before,
    }
}

/// The total of an account is what is available and what is held, taken
/// together.
pub proof fn lemma_total_is_available_plus_held(account: AccountView)
    ensures
        account.total() == account.available + account.held,
{
}

/// Every operation that an account accepts raises its version by one, and
/// from 65535 to 0; the client and, but for a chargeback, the lock stay.
pub proof fn lemma_accepted_operation_advances_version(account: AccountView, amount: int)
    ensures
        account.deposit(amount) matches Ok(next) ==> next.version == next_version(
            account.version,
        ) && next.id == account.id && next.locked == account.locked,
        account.withdraw(amount) matches Ok(next) ==> next.version == next_version(
            account.version,
        ) && next.id == account.id && next.locked == account.locked,
        account.dispute(amount) matches Ok(next) ==> next.version == next_version(
            account.version,
        ) && next.id == account.id && next.locked == account.locked,
        account.resolve(amount) matches Ok(next) ==> next.version == next_version(
            account.version,
        ) && next.id == account.id && next.locked == account.locked,
        account.chargeback(amount) matches Ok(next) ==> next.version == next_version(
            account.version,
        ) && next.id == account.id && next.locked,
        account.version == u16::MAX ==> next_version(account.version) == 0,
        account.version < u16::MAX ==> next_version(account.version) == account.version + 1,
{
}

/// A deposit of a positive amount into an unlocked account is accepted
/// whatever the account holds, and adds the amount to what is available.
pub proof fn lemma_deposit_is_accepted(account: AccountView, amount: int)
    requires
        amount > 0,
        !account.locked,
    ensures
        account.deposit(amount) matches Ok(next) && next.available == account.available + amount
            && next.held == account.held && next.version == next_version(account.version),
{
}

/// A dispute of a positive amount followed by a resolve of the same amount is
/// accepted and leaves both balances, the total and the lock as they were;
/// the version has advanced twice.
pub proof fn lemma_dispute_then_resolve_restores(account: AccountView, amount: int)
    requires
        amount > 0,
    ensures
        account.dispute(amount) matches Ok(disputed) && disputed.resolve(amount) matches Ok(
            resolved,
        ) && resolved.available == account.available && resolved.held == account.held
            && resolved.total() == account.total() && resolved.locked == account.locked
            && resolved.id == account.id && resolved.version == next_version(
            next_version(account.version),
        ),
{
}

/// The balances of one client.
#[derive(Debug, Clone, Copy)]
pub struct Account {
    id: u16,
    available: Decimal4,
    held: Decimal4,
    locked: bool,
    version: u16,
}

impl View for Account {
    type V = AccountView;

    closed spec fn view(&self) -> AccountView {
        AccountView {
            id: self.id,
            available: self.available@,
            held: self.held@,
            locked: self.locked,
            version: self.version,
        }
    }
}

impl Default for Account {
    /// The fresh account of client 0.
    fn default() -> (r: Account)
        ensures
            r@ == AccountView::new(0),
    {
        Account::new(0)
    }
}

impl Account {
    /// The balances of every account are amounts that a [`Decimal4`] holds.
    pub proof fn lemma_representable(self)
        ensures
            self@.representable(),
    {
        self.available.lemma_view();
        self.held.lemma_view();
    }

    /// A fresh account: empty, unlocked, at version 0.
    pub fn new(id: u16) -> (r: Account)
        ensures
            r@ == AccountView::new(id),
    {
        Account { id, available: Decimal4::zero(), held: Decimal4::zero(), locked: false, version: 0 }
    }

    /// An account with every field given, as a store hands it back.
    pub fn from_parts(id: u16, available: Decimal4, held: Decimal4, locked: bool, version: u16) -> (r:
        Account)
        ensures
            r@ == (AccountView { id, available: available@, held: held@, locked, version }),
    {
        Account { id, available, held, locked, version }
    }

    /// The client that the account belongs to.
    pub fn id(&self) -> (r: u16)
        ensures
            r == self@.id,
    {
        self.id
    }

    /// The funds that the client may withdraw.
    pub fn available(&self) -> (r: Decimal4)
        ensures
            r@ == self@.available,
    {
        self.available
    }

    /// The funds that are held while disputes are open.
    pub fn held(&self) -> (r: Decimal4)
        ensures
            r@ == self@.held,
    {
        self.held
    }

    /// Available and held funds together. The accounts are those whose total
    /// a [`Decimal4`] holds.
    pub fn total(&self) -> (r: Decimal4)
        requires
            i64::MIN <= self@.total() <= i64::MAX,
        ensures
            r@ == self@.total(),
            r@ == self@.available + self@.held,
    {
        broadcast use Decimal4::lemma_of_units;

        self.available + self.held
    }

    /// Whether a chargeback has locked the account.
    pub fn locked(&self) -> (r: bool)
        ensures
            r == self@.locked,
    {
        self.locked
    }

    /// The number of changes that the account has taken, modulo 65536.
    pub fn version(&self) -> (r: u16)
        ensures
            r == self@.version,
    {
        self.version
    }

    /// Adds `amount` to the available funds of an unlocked account.
    pub fn deposit(&mut self, amount: Decimal4) -> (r: Result<(), AccountUpdateError>)
        requires
            fits(old(self)@.deposit(amount@)),
        ensures
            applied(old(self)@, final(self)@, old(self)@.deposit(amount@), r),
    {
        broadcast use Decimal4::lemma_of_units;

        if !amount.is_positive() {
            return Err(AccountUpdateError::AmountIsNotPositive);
        }
        if self.locked {
            return Err(AccountUpdateError::AccountLocked);
        }
        proof {
            self.lemma_representable();
        }
        self.available = self.available + amount;
        self.version = bump_version(self.version);
        Ok(())
    }

    /// Takes `amount` from the available funds of an unlocked account that
    /// has as much.
    pub fn withdraw(&mut self, amount: Decimal4) -> (r: Result<(), AccountUpdateError>)
        ensures
            applied(old(self)@, final(self)@, old(self)@.withdraw(amount@), r),
    {
        broadcast use Decimal4::lemma_of_units;

        if !amount.is_positive() {
            return Err(AccountUpdateError::AmountIsNotPositive);
        }
        if self.locked {
            return Err(AccountUpdateError::AccountLocked);
        }
        if amount.units() > self.available.units() {
            return Err(AccountUpdateError::InsufficientFunds);
        }
        proof {
            self.lemma_representable();
        }
        self.available = self.available - amount;
        self.version = bump_version(self.version);
        Ok(())
    }

    /// Moves `amount` from the available to the held funds.
    pub fn dispute(&mut self, amount: Decimal4) -> (r: Result<(), AccountUpdateError>)
        requires
            fits(old(self)@.dispute(amount@)),
        ensures
            applied(old(self)@, final(self)@, old(self)@.dispute(amount@), r),
    {
        broadcast use Decimal4::lemma_of_units;

        if !amount.is_positive() {
            return Err(AccountUpdateError::AmountIsNotPositive);
        }
        self.available = self.available - amount;
        self.held = self.held + amount;
        self.version = bump_version(self.version);
        Ok(())
    }

    /// Moves `amount` from the held funds back to the available ones.
    pub fn resolve(&mut self, amount: Decimal4) -> (r: Result<(), AccountUpdateError>)
        requires
            fits(old(self)@.resolve(amount@)),
        ensures
            applied(old(self)@, final(self)@, old(self)@.resolve(amount@), r),
    {
        broadcast use Decimal4::lemma_of_units;

        if !amount.is_positive() {
            return Err(AccountUpdateError::AmountIsNotPositive);
        }
        self.held = self.held - amount;
        self.available = self.available + amount;
        self.version = bump_version(self.version);
        Ok(())
    }

    /// Removes `amount` from the held funds and locks the account.
    pub fn chargeback(&mut self, amount: Decimal4) -> (r: Result<(), AccountUpdateError>)
        requires
            fits(old(self)@.chargeback(amount@)),
        ensures
            applied(old(self)@, final(self)@, old(self)@.chargeback(amount@), r),
    {
        broadcast use Decimal4::lemma_of_units;

        if !amount.is_positive() {
            return Err(AccountUpdateError::AmountIsNotPositive);
        }
        self.held = self.held - amount;
        self.locked = true;
        self.version = bump_version(self.version);
        Ok(())
    }
}

} // verus!
