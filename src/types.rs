use vstd::prelude::*;

verus! {

/// One account: immutable id and overdraft limit, and the current balance.
#[derive(Clone, Copy, Debug, PartialEq, Eq, Structural)]
pub struct User {
    pub id: i32,
    pub limite: i32,
    pub saldo: i32,
}

/// One accepted transaction as it is kept in the log.
#[derive(Clone, Debug)]
pub struct Statement {
    pub id: i32,
    pub valor: i32,
    pub tipo: String,
    pub descricao: String,
    pub realizado_em: String,
    pub user_id: i32,
}

/// The projection of a logged transaction shown in a statement.
#[derive(Clone, Debug)]
pub struct LastTransaction {
    pub valor: i32,
    pub tipo: String,
    pub descricao: String,
    pub realizado_em: String,
}

/// The balance part of a statement.
#[derive(Clone, Debug)]
pub struct Balance {
    pub total: i32,
    pub data_extrato: String,
    pub limite: i32,
}

/// A statement: the current balance and the most recent transactions.
#[derive(Clone, Debug)]
pub struct StatementResponse {
    pub saldo: Balance,
    pub ultimas_transacoes: Vec<LastTransaction>,
}

/// The account's limit and balance after an accepted transaction.
#[derive(Clone, Copy, Debug, PartialEq, Eq, Structural)]
pub struct TransactionResponse {
    pub limite: i32,
    pub saldo: i32,
}

/// A transaction request: `tipo` is `"c"` (credit) or `"d"` (debit).
#[derive(Clone, Debug)]
pub struct NewTransaction {
    pub valor: i32,
    pub tipo: String,
    pub descricao: String,
}

/// The two kinds of transaction.
#[derive(Clone, Copy, Debug, PartialEq, Eq, Structural)]
pub enum TxKind {
    Credit,
    Debit,
}

/// Why a request was turned down. Nothing is changed when one is returned.
#[derive(Clone, Copy, Debug, PartialEq, Eq, Structural)]
pub enum LedgerError {
    /// No account has the given id.
    AccountNotFound,
    /// Unknown kind, amount not positive, or description not 1 to 10 characters.
    InvalidInput,
    /// A debit would take the balance below minus the limit.
    LimitExceeded,
    /// A credit would take the balance beyond what an `i32` holds.
    BalanceOutOfRange,
    /// Every sequence id that an `i32` holds has been handed out.
    LogExhausted,
}

/// Longest description accepted, in characters.
pub const MAX_DESCRIPTION: usize = 10;

/// The kind that a `tipo` string names, if any.
pub open spec fn kind_of(tipo: Seq<char>) -> Option<TxKind> {
    if tipo.len() == 1 && tipo[0] == 'c' {
        Some(TxKind::Credit)
    } else if tipo.len() == 1 && tipo[0] == 'd' {
        Some(TxKind::Debit)
    } else {
        None
    }
}

/// A request is well formed: known kind, positive amount, 1 to 10 characters of description.
pub open spec fn valid_request(t: NewTransaction) -> bool {
    &&& kind_of(t.tipo@) is Some
    &&& t.valor > 0
    &&& 1 <= t.descricao@.len() <= MAX_DESCRIPTION
}

/// What a statement shows of a logged transaction.
pub open spec fn last_of(s: Statement) -> LastTransaction {
    LastTransaction {
        valor: s.valor,
        tipo: s.tipo,
        descricao: s.descricao,
        realizado_em: s.realizado_em,
    }
}

impl TxKind {
    /// Reads a `tipo` string: `"c"` is a credit, `"d"` a debit.
    pub fn parse(tipo: &str) -> (r: Option<TxKind>)
        ensures
            r == kind_of(tipo@),
    {
        if tipo.unicode_len() != 1 {
            return None;
        }
        let c = tipo.get_char(0);
        if c == 'c' {
            Some(TxKind::Credit)
        } else if c == 'd' {
            Some(TxKind::Debit)
        } else {
            None
        }
    }
}

impl NewTransaction {
    /// The kind of a well-formed request, or `None` when the request is malformed.
    pub fn validate(&self) -> (r: Option<TxKind>)
        ensures
            valid_request(*self) ==> r == kind_of(self.tipo@),
            !valid_request(*self) ==> r is None,
    {
        let kind = TxKind::parse(self.tipo.as_str());
        if kind.is_none() || self.valor <= 0 {
            return None;
        }
        let n = self.descricao.as_str().unicode_len();
        if n < 1 || n > MAX_DESCRIPTION {
            return None;
        }
        kind
    }
}

impl Statement {
    /// A copy of this record, equal to it field by field.
    pub fn duplicate(&self) -> (r: Statement)
        ensures
            r == *self,
    {
        Statement {
            id: self.id,
            valor: self.valor,
            tipo: self.tipo.clone(),
            descricao: self.descricao.clone(),
            realizado_em: self.realizado_em.clone(),
            user_id: self.user_id,
        }
    }

    /// The projection of this record that a statement shows.
    pub fn to_last_transaction(&self) -> (r: LastTransaction)
        ensures
            r == last_of(*self),
    {
        LastTransaction {
            valor: self.valor,
            tipo: self.tipo.clone(),
            descricao: self.descricao.clone(),
            realizado_em: self.realizado_em.clone(),
        }
    }
}

} // verus!
