use vstd::prelude::*;
use vstd::arithmetic::div_mod::lemma_div_plus_one;
use vstd::arithmetic::div_mod::lemma_div_pos_is_pos;
use vstd::arithmetic::div_mod::lemma_basic_div;
use crate::accounts::accounts_wf;
use crate::log::{log_wf, recent_of};
use crate::service::{
    history_of, record_of, statement_post, transaction_post, transaction_result, AppState,
    HISTORY_LEN,
};
use crate::types::{
    kind_of, last_of, valid_request, LedgerError, NewTransaction, Statement, StatementResponse,
    TransactionResponse, TxKind, User,
};

verus! {

/// In a well-formed ledger every account's balance is at least minus its limit.
pub proof fn lemma_balance_within_limit(s: AppState, id: i32)
    requires
        s.wf(),
        s.accounts().contains_key(id),
    ensures
        s.accounts()[id].saldo >= -s.accounts()[id].limite,
{
}

/// Whatever a transaction request does, accepted or refused, every account
/// still has a balance of at least minus its limit afterwards.
pub proof fn lemma_transaction_keeps_limits(
    pre: AppState,
    post: AppState,
    id: i32,
    tx: NewTransaction,
    at: String,
    r: Result<TransactionResponse, LedgerError>,
)
    requires
        pre.wf(),
        transaction_post(pre, post, id, tx, at, r),
    ensures
        accounts_wf(post.accounts()),
{
}

/// Two statement reads of one account with no transaction between them agree
/// on the balance, the limit and the history; only the date may differ.
pub proof fn lemma_statement_reads_agree(
    s: AppState,
    id: i32,
    at1: String,
    at2: String,
    r1: Result<StatementResponse, LedgerError>,
    r2: Result<StatementResponse, LedgerError>,
)
    requires
        statement_post(s, id, at1, r1),
        statement_post(s, id, at2, r2),
    ensures
        r1 is Ok <==> r2 is Ok,
        r1 is Err ==> r1 == r2,
        (r1 is Ok && r2 is Ok) ==> {
            let a = r1->Ok_0;
            let b = r2->Ok_0;
            &&& a.saldo.total == b.saldo.total
            &&& a.saldo.limite == b.saldo.limite
            &&& a.ultimas_transacoes@ == b.ultimas_transacoes@
        },
{
}

/// Every record that `recent_of` picks is a record of the log.
proof fn lemma_recent_from_log(log: Seq<Statement>, uid: i32, n: nat)
    ensures
        forall|i: int|
            0 <= i < recent_of(log, uid, n).len() ==> exists|k: int|
                0 <= k < log.len() && log[k] == #[trigger] recent_of(log, uid, n)[i],
    decreases log.len(),
{
    if log.len() > 0 && n > 0 {
        let m = if log.last().user_id == uid { (n - 1) as nat } else { n };
        lemma_recent_from_log(log.drop_last(), uid, m);
        let r = recent_of(log, uid, n);
        let t = recent_of(log.drop_last(), uid, m);
        assert forall|i: int| 0 <= i < r.len() implies exists|k: int|
            0 <= k < log.len() && log[k] == #[trigger] r[i] by {
            if log.last().user_id == uid {
                if i == 0 {
                    assert(log[log.len() - 1] == r[i]);
                } else {
                    assert(r[i] == t[i - 1]);
                    let k = choose|k: int| 0 <= k < log.len() - 1 && log.drop_last()[k] == t[i - 1];
                    assert(log[k] == r[i]);
                }
            } else {
                assert(r[i] == t[i]);
                let k = choose|k: int| 0 <= k < log.len() - 1 && log.drop_last()[k] == t[i];
                assert(log[k] == r[i]);
            }
        }
    }
}

/// The recent records of an account belong to it, are at most `n`, and come
/// newest first: their sequence ids strictly decrease.
pub proof fn lemma_recent_newest_first(log: Seq<Statement>, next: int, uid: i32, n: nat)
    requires
        log_wf(log, next),
    ensures
        recent_of(log, uid, n).len() <= n,
        forall|i: int|
            0 <= i < recent_of(log, uid, n).len() ==> (#[trigger] recent_of(log, uid, n)[i]).user_id
                == uid,
        forall|i: int, j: int|
            0 <= i < j < recent_of(log, uid, n).len() ==> (#[trigger] recent_of(log, uid, n)[i]).id
                > (#[trigger] recent_of(log, uid, n)[j]).id,
    decreases log.len(),
{
    if log.len() > 0 && n > 0 {
        let pre = log.drop_last();
        assert(log_wf(pre, next));
        let m = if log.last().user_id == uid { (n - 1) as nat } else { n };
        lemma_recent_newest_first(pre, next, uid, m);
        lemma_recent_from_log(pre, uid, m);
        let r = recent_of(log, uid, n);
        let t = recent_of(pre, uid, m);
        if log.last().user_id == uid {
            assert forall|i: int, j: int| 0 <= i < j < r.len() implies (#[trigger] r[i]).id > (
            #[trigger] r[j]).id by {
                assert(r[j] == t[j - 1]);
                if i == 0 {
                    let k = choose|k: int| 0 <= k < pre.len() && pre[k] == t[j - 1];
                    assert(log[k] == pre[k]);
                } else {
                    assert(r[i] == t[i - 1]);
                }
            }
            assert forall|i: int| 0 <= i < r.len() implies (#[trigger] r[i]).user_id == uid by {
                if i > 0 {
                    assert(r[i] == t[i - 1]);
                }
            }
        }
    }
}

/// Appending a record of account `uid` and asking again for its `n` latest
/// records gives that record first, then the `n - 1` latest of before.
pub proof fn lemma_append_prepends(log: Seq<Statement>, rec: Statement, n: nat)
    requires
        n > 0,
    ensures
        recent_of(log.push(rec), rec.user_id, n) == seq![rec] + recent_of(
            log,
            rec.user_id,
            (n - 1) as nat,
        ),
{
    assert(log.push(rec).drop_last() =~= log);
}

/// After an accepted transaction the account's statement history starts with
/// that transaction, followed by the account's nine latest from before.
pub proof fn lemma_accepted_transaction_heads_history(
    pre: AppState,
    post: AppState,
    id: i32,
    tx: NewTransaction,
    at: String,
    r: Result<TransactionResponse, LedgerError>,
)
    requires
        transaction_post(pre, post, id, tx, at, r),
        r is Ok,
    ensures
        history_of(post.log(), id) == seq![last_of(record_of(id, pre.next_seq(), tx, at))]
            + recent_of(pre.log(), id, (HISTORY_LEN - 1) as nat).map_values(
            |s: Statement| last_of(s),
        ),
{
    let rec = record_of(id, pre.next_seq(), tx, at);
    lemma_append_prepends(pre.log(), rec, HISTORY_LEN as nat);
    let t = recent_of(pre.log(), id, (HISTORY_LEN - 1) as nat);
    assert((seq![rec] + t).map_values(|s: Statement| last_of(s)) =~= seq![last_of(rec)]
        + t.map_values(|s: Statement| last_of(s)));
}

/// The state after `n` copies of request `tx` on account `id` run one after
/// another, as the shared lock orders them: the accounts, the next sequence id,
/// how many were accepted and how many were refused for the limit.
pub open spec fn serial_run(
    accts: Map<i32, User>,
    next: int,
    id: i32,
    tx: NewTransaction,
    n: nat,
) -> (Map<i32, User>, int, nat, nat)
    decreases n,
{
    if n == 0 {
        (accts, next, 0, 0)
    } else {
        match transaction_result(accts, next, id, tx) {
            Ok(u) => {
                let (m, nx, ok, refused) = serial_run(accts.insert(id, u), next + 1, id, tx, (n - 1) as nat);
                (m, nx, ok + 1, refused)
            },
            Err(e) => {
                let (m, nx, ok, refused) = serial_run(accts, next, id, tx, (n - 1) as nat);
                (m, nx, ok, if e == LedgerError::LimitExceeded { refused + 1 } else { refused })
            },
        }
    }
}

/// `n` debits of amount `a` on one account, with room for them in the log:
/// exactly `min(n, k)` are accepted, where `k = (balance + limit) / a`, all the
/// others are refused for the limit, and the balance ends at `balance - min(n, k) * a`.
pub proof fn lemma_serial_debits(
    accts: Map<i32, User>,
    next: int,
    id: i32,
    tx: NewTransaction,
    n: nat,
)
    requires
        accounts_wf(accts),
        accts.contains_key(id),
        valid_request(tx),
        kind_of(tx.tipo@) == Some(TxKind::Debit),
        1 <= next,
        next + n <= i32::MAX,
    ensures
        ({
            let (m, nx, ok, refused) = serial_run(accts, next, id, tx, n);
            let k = (accts[id].saldo + accts[id].limite) / (tx.valor as int);
            &&& ok == (if n <= k { n as int } else { k })
            &&& refused == n - ok
            &&& m.contains_key(id)
            &&& m[id].saldo == accts[id].saldo - ok * tx.valor
            &&& m[id].limite == accts[id].limite
            &&& nx == next + ok
        }),
    decreases n,
{
    let u = accts[id];
    let a = tx.valor as int;
    let x = u.saldo + u.limite;
    lemma_div_pos_is_pos(x, a);
    if n > 0 {
        if u.saldo - a < -u.limite {
            lemma_basic_div(x, a);
            assert(x / a == 0);
            assert(transaction_result(accts, next, id, tx) == Err::<User, LedgerError>(LedgerError::LimitExceeded));
            lemma_serial_debits(accts, next, id, tx, (n - 1) as nat);
        } else {
            let u2 = User { saldo: (u.saldo - a) as i32, ..u };
            let m2 = accts.insert(id, u2);
            assert(transaction_result(accts, next, id, tx) == Ok::<User, LedgerError>(u2));
            assert(accounts_wf(m2));
            lemma_serial_debits(m2, next + 1, id, tx, (n - 1) as nat);
            lemma_div_plus_one(x - a, a);
            let (m, nx, ok, refused) = serial_run(accts, next, id, tx, n);
            let ok2 = serial_run(m2, next + 1, id, tx, (n - 1) as nat).2;
            assert(ok == ok2 + 1);
            assert((x - a) / a + 1 == x / a);
            assert(m2[id].saldo + m2[id].limite == x - a);
            assert(u.saldo - a - ok2 * a == u.saldo - ok * a) by (nonlinear_arith)
                requires
                    ok == ok2 + 1,
            ;
        }
    }
}

/// One request as the ledger runs it is one step of `serial_run`: the accounts
/// and the next sequence id after it are those that the run of length one gives.
pub proof fn lemma_transaction_is_one_step(
    pre: AppState,
    post: AppState,
    id: i32,
    tx: NewTransaction,
    at: String,
    r: Result<TransactionResponse, LedgerError>,
)
    requires
        transaction_post(pre, post, id, tx, at, r),
    ensures
        post.accounts() == serial_run(pre.accounts(), pre.next_seq(), id, tx, 1).0,
        post.next_seq() == serial_run(pre.accounts(), pre.next_seq(), id, tx, 1).1,
{
    reveal_with_fuel(serial_run, 2);
}

/// A statement read from a well-formed ledger never shows a balance below
/// minus the limit.
pub proof fn lemma_statement_within_limit(
    s: AppState,
    id: i32,
    at: String,
    r: Result<StatementResponse, LedgerError>,
)
    requires
        s.wf(),
        statement_post(s, id, at, r),
        r is Ok,
    ensures
        r->Ok_0.saldo.total >= -r->Ok_0.saldo.limite,
{
}

} // verus!
