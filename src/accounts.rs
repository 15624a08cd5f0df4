use std::collections::HashMap;
use vstd::prelude::*;
use crate::types::{LedgerError, User};

verus! {

broadcast use vstd::std_specs::hash::group_hash_axioms;

/// Every account is filed under its own id, has a non-negative limit and a
/// balance of at least minus that limit.
pub open spec fn accounts_wf(m: Map<i32, User>) -> bool {
    forall|k: i32|
        #![trigger m[k]]
        m.contains_key(k) ==> {
            &&& m[k].id == k
            &&& m[k].limite >= 0
            &&& m[k].saldo >= -m[k].limite
        }
}

/// The accounts provisioned at start: five, with distinct limits and zero balances.
pub open spec fn provisioned_accounts() -> Map<i32, User> {
    map![
        1i32 => User { id: 1, limite: 100000, saldo: 0 },
        2i32 => User { id: 2, limite: 80000, saldo: 0 },
        3i32 => User { id: 3, limite: 1000000, saldo: 0 },
        4i32 => User { id: 4, limite: 10000000, saldo: 0 },
        5i32 => User { id: 5, limite: 500000, saldo: 0 },
    ]
}

/// The balance a credit yields, if it is representable.
pub open spec fn credit_result(u: User, amount: int) -> Result<User, LedgerError> {
    if u.saldo + amount > i32::MAX {
        Err(LedgerError::BalanceOutOfRange)
    } else {
        Ok(User { saldo: (u.saldo + amount) as i32, ..u })
    }
}

/// The balance a debit yields, if it keeps within the limit.
pub open spec fn debit_result(u: User, amount: int) -> Result<User, LedgerError> {
    if u.saldo - amount < -u.limite {
        Err(LedgerError::LimitExceeded)
    } else {
        Ok(User { saldo: (u.saldo - amount) as i32, ..u })
    }
}

/// What a credit or debit on account `id` of `m` gives.
pub open spec fn mutation_result(
    m: Map<i32, User>,
    id: i32,
    r: Result<User, LedgerError>,
) -> Result<User, LedgerError> {
    if !m.contains_key(id) {
        Err(LedgerError::AccountNotFound)
    } else {
        r
    }
}

/// The table of accounts, keyed by id.
pub struct AccountStore {
    users: HashMap<i32, User>,
}

impl View for AccountStore {
    type V = Map<i32, User>;

    closed spec fn view(&self) -> Map<i32, User> {
        self.users@
    }
}

impl AccountStore {
    /// Every account within its limit, filed under its own id.
    pub open spec fn wf(&self) -> bool {
        accounts_wf(self@)
    }

    /// The table with the five provisioned accounts.
    pub fn provisioned() -> (r: AccountStore)
        ensures
            r@ == provisioned_accounts(),
            r.wf(),
    {
        let mut users: HashMap<i32, User> = HashMap::new();
        users.insert(1, User { id: 1, limite: 100000, saldo: 0 });
        users.insert(2, User { id: 2, limite: 80000, saldo: 0 });
        users.insert(3, User { id: 3, limite: 1000000, saldo: 0 });
        users.insert(4, User { id: 4, limite: 10000000, saldo: 0 });
        users.insert(5, User { id: 5, limite: 500000, saldo: 0 });
        let r = AccountStore { users };
        assert(r@ =~= provisioned_accounts());
        r
    }

    /// The account filed under `id`; no side effect.
    pub fn get(&self, id: i32) -> (r: Option<User>)
        ensures
            r == (if self@.contains_key(id) { Some(self@[id]) } else { None::<User> }),
    {
        match self.users.get(&id) {
            Some(u) => Some(*u),
            None => None,
        }
    }

    /// Adds `amount` to the balance of account `id`; credits never meet the limit.
    pub fn apply_credit(&mut self, id: i32, amount: i32) -> (r: Result<i32, LedgerError>)
        requires
            old(self).wf(),
            amount > 0,
        ensures
            final(self).wf(),
            ({
                let res = mutation_result(
                    old(self)@,
                    id,
                    credit_result(old(self)@[id], amount as int),
                );
                match res {
                    Ok(u) => r == Ok::<i32, LedgerError>(u.saldo) && final(self)@ == old(self)@.insert(
                        id,
                        u,
                    ),
                    Err(e) => r == Err::<i32, LedgerError>(e) && final(self)@ == old(self)@,
                }
            }),
    {
        let u = match self.get(id) {
            Some(u) => u,
            None => return Err(LedgerError::AccountNotFound),
        };
        if u.saldo as i64 + amount as i64 > i32::MAX as i64 {
            return Err(LedgerError::BalanceOutOfRange);
        }
        let nu = User { saldo: u.saldo + amount, ..u };
        self.users.insert(id, nu);
        Ok(nu.saldo)
    }

    /// Takes `amount` from the balance of account `id`, unless the balance would
    /// fall below minus the limit; the check and the commit are one step.
    pub fn apply_debit(&mut self, id: i32, amount: i32) -> (r: Result<i32, LedgerError>)
        requires
            old(self).wf(),
            amount > 0,
        ensures
            final(self).wf(),
            ({
                let res = mutation_result(
                    old(self)@,
                    id,
                    debit_result(old(self)@[id], amount as int),
                );
                match res {
                    Ok(u) => r == Ok::<i32, LedgerError>(u.saldo) && final(self)@ == old(self)@.insert(
                        id,
                        u,
                    ),
                    Err(e) => r == Err::<i32, LedgerError>(e) && final(self)@ == old(self)@,
                }
            }),
    {
        let u = match self.get(id) {
            Some(u) => u,
            None => return Err(LedgerError::AccountNotFound),
        };
        let candidate: i64 = u.saldo as i64 - amount as i64;
        if candidate < -(u.limite as i64) {
            return Err(LedgerError::LimitExceeded);
        }
        let nu = User { saldo: candidate as i32, ..u };
        self.users.insert(id, nu);
        Ok(nu.saldo)
    }
}

} // verus!
