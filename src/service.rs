use vstd::prelude::*;
use crate::accounts::{
    accounts_wf, credit_result, debit_result, provisioned_accounts, AccountStore,
};
use crate::clock::now_rfc3339;
use crate::log::{log_wf, recent_of, LedgerLog};
use crate::types::{
    kind_of, last_of, valid_request, Balance, LastTransaction, LedgerError, NewTransaction,
    Statement, StatementResponse, TransactionResponse, TxKind, User,
};

verus! {

/// How many transactions a statement shows at most.
pub const HISTORY_LEN: usize = 10;

/// The outcome of a request on account `id`: the account as it is after the
/// transaction, or the reason it is refused. Checks run in this order:
/// the request's form, the account, the log's room, the limit or range.
pub open spec fn transaction_result(
    accts: Map<i32, User>,
    next: int,
    id: i32,
    tx: NewTransaction,
) -> Result<User, LedgerError> {
    if !valid_request(tx) {
        Err(LedgerError::InvalidInput)
    } else if !accts.contains_key(id) {
        Err(LedgerError::AccountNotFound)
    } else if next >= i32::MAX {
        Err(LedgerError::LogExhausted)
    } else {
        match kind_of(tx.tipo@) {
            Some(TxKind::Credit) => credit_result(accts[id], tx.valor as int),
            _ => debit_result(accts[id], tx.valor as int),
        }
    }
}

/// The log record of an accepted request.
pub open spec fn record_of(id: i32, seq: int, tx: NewTransaction, at: String) -> Statement {
    Statement {
        id: seq as i32,
        valor: tx.valor,
        tipo: tx.tipo,
        descricao: tx.descricao,
        realizado_em: at,
        user_id: id,
    }
}

/// The history a statement of account `id` shows: its ten latest records, newest first.
pub open spec fn history_of(log: Seq<Statement>, id: i32) -> Seq<LastTransaction> {
    recent_of(log, id, HISTORY_LEN as nat).map_values(|s: Statement| last_of(s))
}

/// A request on `id` taken at instant `at` led from `pre` to `post` with result `r`:
/// an accepted one updates the account and appends its record, a refused one changes nothing.
pub open spec fn transaction_post(
    pre: AppState,
    post: AppState,
    id: i32,
    tx: NewTransaction,
    at: String,
    r: Result<TransactionResponse, LedgerError>,
) -> bool {
    match transaction_result(pre.accounts(), pre.next_seq(), id, tx) {
        Ok(u) => {
            &&& r == Ok::<TransactionResponse, LedgerError>(
                TransactionResponse { limite: u.limite, saldo: u.saldo },
            )
            &&& post.accounts() == pre.accounts().insert(id, u)
            &&& post.log() == pre.log().push(record_of(id, pre.next_seq(), tx, at))
            &&& post.next_seq() == pre.next_seq() + 1
        },
        Err(e) => {
            &&& r == Err::<TransactionResponse, LedgerError>(e)
            &&& post.accounts() == pre.accounts()
            &&& post.log() == pre.log()
            &&& post.next_seq() == pre.next_seq()
        },
    }
}

/// `r` is the statement of account `id` in state `s`, dated `at`.
pub open spec fn statement_post(
    s: AppState,
    id: i32,
    at: String,
    r: Result<StatementResponse, LedgerError>,
) -> bool {
    match r {
        Ok(resp) => {
            &&& s.accounts().contains_key(id)
            &&& resp.saldo == Balance {
                total: s.accounts()[id].saldo,
                data_extrato: at,
                limite: s.accounts()[id].limite,
            }
            &&& resp.ultimas_transacoes@ == history_of(s.log(), id)
        },
        Err(e) => !s.accounts().contains_key(id) && e == LedgerError::AccountNotFound,
    }
}

/// The ledger: the accounts and the log of their transactions, changed together.
/// Callers that share it hold it under one lock, so each operation is one atomic step.
pub struct AppState {
    user_state: AccountStore,
    statement_state: LedgerLog,
}

impl AppState {
    /// The accounts, keyed by id.
    pub closed spec fn accounts(&self) -> Map<i32, User> {
        self.user_state@
    }

    /// The log, oldest record first.
    pub closed spec fn log(&self) -> Seq<Statement> {
        self.statement_state@
    }

    /// The sequence id the next accepted transaction gets.
    pub closed spec fn next_seq(&self) -> int {
        self.statement_state.next_seq()
    }

    /// Accounts within their limits, a well-ordered log, and only records of
    /// existing accounts in it.
    pub open spec fn wf(&self) -> bool {
        &&& accounts_wf(self.accounts())
        &&& log_wf(self.log(), self.next_seq())
        &&& forall|i: int|
            0 <= i < self.log().len() ==> self.accounts().contains_key(
                #[trigger] self.log()[i].user_id,
            )
    }

    /// The five provisioned accounts, all at balance zero, and an empty log.
    pub fn new() -> (r: AppState)
        ensures
            r.wf(),
            r.accounts() == provisioned_accounts(),
            r.log() == Seq::<Statement>::empty(),
            r.next_seq() == 1,
    {
        AppState { user_state: AccountStore::provisioned(), statement_state: LedgerLog::new() }
    }

    /// Applies the request `tx` to account `id`, recording it as made at `at`:
    /// validates it, checks the limit on a debit, updates the balance and
    /// appends the record, all or nothing.
    pub fn create_transaction_at(&mut self, id: i32, tx: NewTransaction, at: String) -> (r: Result<
        TransactionResponse,
        LedgerError,
    >)
        requires
            old(self).wf(),
        ensures
            final(self).wf(),
            transaction_post(*old(self), *final(self), id, tx, at, r),
    {
        let kind = match tx.validate() {
            Some(k) => k,
            None => return Err(LedgerError::InvalidInput),
        };
        let account = match self.user_state.get(id) {
            Some(u) => u,
            None => return Err(LedgerError::AccountNotFound),
        };
        if self.statement_state.is_exhausted() {
            return Err(LedgerError::LogExhausted);
        }
        let applied = match kind {
            TxKind::Credit => self.user_state.apply_credit(id, tx.valor),
            TxKind::Debit => self.user_state.apply_debit(id, tx.valor),
        };
        let saldo = match applied {
            Ok(b) => b,
            Err(e) => return Err(e),
        };
        let limite = account.limite;
        let ghost pre_log = self.statement_state@;
        let record = Statement {
            id: 0,
            valor: tx.valor,
            tipo: tx.tipo,
            descricao: tx.descricao,
            realizado_em: at,
            user_id: id,
        };
        self.statement_state.append(record);
        proof {
            assert forall|i: int| 0 <= i < self.log().len() implies self.accounts().contains_key(
                #[trigger] self.log()[i].user_id,
            ) by {
                if i < pre_log.len() {
                    assert(self.log()[i] == pre_log[i]);
                }
            }
        }
        Ok(TransactionResponse { limite, saldo })
    }

    /// Applies the request `tx` to account `id`, dated with the current time.
    pub fn create_transaction(&mut self, id: i32, tx: NewTransaction) -> (r: Result<
        TransactionResponse,
        LedgerError,
    >)
        requires
            old(self).wf(),
        ensures
            final(self).wf(),
            exists|at: String| transaction_post(*old(self), *final(self), id, tx, at, r),
    {
        let at = now_rfc3339();
        let ghost stamp = at;
        let r = self.create_transaction_at(id, tx, at);
        assert(transaction_post(*old(self), *self, id, tx, stamp, r));
        r
    }

    /// The statement of account `id` dated `at`: its balance and limit, and its
    /// ten latest transactions, newest first.
    pub fn get_bank_statement_at(&self, id: i32, at: String) -> (r: Result<
        StatementResponse,
        LedgerError,
    >)
        ensures
            statement_post(*self, id, at, r),
    {
        let u = match self.user_state.get(id) {
            Some(u) => u,
            None => return Err(LedgerError::AccountNotFound),
        };
        let recent = self.statement_state.recent(id, HISTORY_LEN);
        let mut out: Vec<LastTransaction> = Vec::new();
        let mut j: usize = 0;
        while j < recent.len()
            invariant
                j <= recent@.len(),
                out@ == recent@.subrange(0, j as int).map_values(|s: Statement| last_of(s)),
            decreases recent@.len() - j,
        {
            out.push(recent[j].to_last_transaction());
            assert(recent@.subrange(0, j + 1).drop_last() =~= recent@.subrange(0, j as int));
            assert(out@ =~= recent@.subrange(0, j + 1).map_values(|s: Statement| last_of(s)));
            j = j + 1;
        }
        assert(recent@.subrange(0, j as int) =~= recent@);
        let saldo = Balance { total: u.saldo, data_extrato: at, limite: u.limite };
        Ok(StatementResponse { saldo, ultimas_transacoes: out })
    }

    /// The statement of account `id`, dated with the current time.
    pub fn get_bank_statement(&self, id: i32) -> (r: Result<StatementResponse, LedgerError>)
        ensures
            exists|at: String| statement_post(*self, id, at, r),
    {
        let at = now_rfc3339();
        let ghost stamp = at;
        let r = self.get_bank_statement_at(id, at);
        assert(statement_post(*self, id, stamp, r));
        r
    }
}

} // verus!
