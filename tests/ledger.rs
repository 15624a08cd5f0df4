use rinha::{
    AccountStore,
    AppState, LedgerError, LedgerLog, NewTransaction, Statement, TransactionResponse, TxKind,
};

fn tx(valor: i32, tipo: &str, descricao: &str) -> NewTransaction {
    NewTransaction { valor, tipo: tipo.to_string(), descricao: descricao.to_string() }
}

fn ok(limite: i32, saldo: i32) -> Result<TransactionResponse, LedgerError> {
    Ok(TransactionResponse { limite, saldo })
}

#[test]
fn debit_within_limit() {
    let mut s = AppState::new();
    assert_eq!(s.create_transaction(1, tx(1000, "d", "debito")), ok(100000, -1000));
}

#[test]
fn debit_beyond_limit_is_refused() {
    let mut s = AppState::new();
    assert_eq!(s.create_transaction(1, tx(1000, "d", "debito")), ok(100000, -1000));
    assert_eq!(
        s.create_transaction(1, tx(200000, "d", "grande")),
        Err(LedgerError::LimitExceeded)
    );
    let st = s.get_bank_statement(1).unwrap();
    assert_eq!(st.saldo.total, -1000);
    assert_eq!(st.ultimas_transacoes.len(), 1);
}

#[test]
fn credit_after_debit() {
    let mut s = AppState::new();
    assert_eq!(s.create_transaction(1, tx(1000, "d", "debito")), ok(100000, -1000));
    assert_eq!(
        s.create_transaction(1, tx(200000, "d", "grande")),
        Err(LedgerError::LimitExceeded)
    );
    assert_eq!(s.create_transaction(1, tx(5000, "c", "credito")), ok(100000, 4000));
}

#[test]
fn statement_lists_newest_first() {
    let mut s = AppState::new();
    s.create_transaction(1, tx(1000, "d", "debito")).unwrap();
    assert!(s.create_transaction(1, tx(200000, "d", "grande")).is_err());
    s.create_transaction(1, tx(5000, "c", "credito")).unwrap();
    let st = s.get_bank_statement(1).unwrap();
    assert_eq!(st.saldo.total, 4000);
    assert_eq!(st.saldo.limite, 100000);
    assert_eq!(st.ultimas_transacoes.len(), 2);
    assert_eq!(st.ultimas_transacoes[0].valor, 5000);
    assert_eq!(st.ultimas_transacoes[0].tipo, "c");
    assert_eq!(st.ultimas_transacoes[0].descricao, "credito");
    assert_eq!(st.ultimas_transacoes[1].valor, 1000);
    assert_eq!(st.ultimas_transacoes[1].tipo, "d");
}

#[test]
fn unknown_account_is_not_found() {
    let mut s = AppState::new();
    assert_eq!(
        s.create_transaction(999, tx(100, "c", "x")),
        Err(LedgerError::AccountNotFound)
    );
    assert_eq!(s.get_bank_statement(999).err(), Some(LedgerError::AccountNotFound));
}

#[test]
fn unknown_kind_changes_nothing() {
    let mut s = AppState::new();
    assert_eq!(s.create_transaction(1, tx(100, "x", "x")), Err(LedgerError::InvalidInput));
    let st = s.get_bank_statement(1).unwrap();
    assert_eq!(st.saldo.total, 0);
    assert!(st.ultimas_transacoes.is_empty());
}

#[test]
fn malformed_requests_are_invalid() {
    let mut s = AppState::new();
    assert_eq!(s.create_transaction(1, tx(0, "c", "zero")), Err(LedgerError::InvalidInput));
    assert_eq!(s.create_transaction(1, tx(-5, "d", "neg")), Err(LedgerError::InvalidInput));
    assert_eq!(s.create_transaction(1, tx(5, "c", "")), Err(LedgerError::InvalidInput));
    assert_eq!(
        s.create_transaction(1, tx(5, "c", "onze chars!")),
        Err(LedgerError::InvalidInput)
    );
    assert_eq!(s.create_transaction(1, tx(5, "cd", "x")), Err(LedgerError::InvalidInput));
    assert_eq!(s.create_transaction(1, tx(5, "C", "x")), Err(LedgerError::InvalidInput));
    assert_eq!(s.create_transaction(1, tx(5, "c", "dez chars!")), ok(100000, 5));
    assert_eq!(s.create_transaction(1, tx(5, "d", "ação")), ok(100000, 0));
}

#[test]
fn invalid_input_is_checked_before_the_account() {
    let mut s = AppState::new();
    assert_eq!(s.create_transaction(999, tx(5, "x", "x")), Err(LedgerError::InvalidInput));
}

#[test]
fn debit_to_exactly_minus_limit() {
    let mut s = AppState::new();
    assert_eq!(s.create_transaction(2, tx(80000, "d", "tudo")), ok(80000, -80000));
    assert_eq!(s.create_transaction(2, tx(1, "d", "um")), Err(LedgerError::LimitExceeded));
    assert_eq!(s.get_bank_statement(2).unwrap().saldo.total, -80000);
}

#[test]
fn credit_beyond_i32_is_refused() {
    let mut s = AppState::new();
    assert_eq!(s.create_transaction(3, tx(i32::MAX, "c", "max")), ok(1000000, i32::MAX));
    assert_eq!(
        s.create_transaction(3, tx(1, "c", "um")),
        Err(LedgerError::BalanceOutOfRange)
    );
    let st = s.get_bank_statement(3).unwrap();
    assert_eq!(st.saldo.total, i32::MAX);
    assert_eq!(st.ultimas_transacoes.len(), 1);
}

#[test]
fn provisioned_accounts_start_at_zero() {
    let s = AppState::new();
    let limits = [100000, 80000, 1000000, 10000000, 500000];
    for (i, limit) in limits.iter().enumerate() {
        let st = s.get_bank_statement(i as i32 + 1).unwrap();
        assert_eq!(st.saldo.limite, *limit);
        assert_eq!(st.saldo.total, 0);
        assert!(st.ultimas_transacoes.is_empty());
    }
    assert!(s.get_bank_statement(0).is_err());
    assert!(s.get_bank_statement(6).is_err());
}

#[test]
fn balance_never_below_minus_limit() {
    let mut s = AppState::new();
    let amounts = [30000, 70000, 5, 99999, 1, 200000, 12345, 4000];
    for (i, a) in amounts.iter().enumerate() {
        let kind = if i % 3 == 2 { "c" } else { "d" };
        let _ = s.create_transaction(5, tx(*a, kind, "passo"));
        let st = s.get_bank_statement(5).unwrap();
        assert!(st.saldo.total >= -st.saldo.limite);
    }
}

#[test]
fn repeated_reads_agree() {
    let mut s = AppState::new();
    s.create_transaction(4, tx(700, "c", "a")).unwrap();
    s.create_transaction(4, tx(300, "d", "b")).unwrap();
    let a = s.get_bank_statement_at(4, "t1".to_string()).unwrap();
    let b = s.get_bank_statement_at(4, "t2".to_string()).unwrap();
    assert_eq!(a.saldo.total, b.saldo.total);
    assert_eq!(a.saldo.limite, b.saldo.limite);
    assert_eq!(a.ultimas_transacoes.len(), b.ultimas_transacoes.len());
    for (x, y) in a.ultimas_transacoes.iter().zip(b.ultimas_transacoes.iter()) {
        assert_eq!(x.valor, y.valor);
        assert_eq!(x.tipo, y.tipo);
        assert_eq!(x.descricao, y.descricao);
        assert_eq!(x.realizado_em, y.realizado_em);
    }
    assert_eq!(a.saldo.data_extrato, "t1");
    assert_eq!(b.saldo.data_extrato, "t2");
}

#[test]
fn statement_keeps_ten_latest() {
    let mut s = AppState::new();
    for v in 1..=12 {
        s.create_transaction(1, tx(v, "c", "c")).unwrap();
        s.create_transaction(2, tx(v, "c", "outra")).unwrap();
    }
    let st = s.get_bank_statement(1).unwrap();
    assert_eq!(st.ultimas_transacoes.len(), 10);
    let values: Vec<i32> = st.ultimas_transacoes.iter().map(|t| t.valor).collect();
    assert_eq!(values, vec![12, 11, 10, 9, 8, 7, 6, 5, 4, 3]);
    assert!(st.ultimas_transacoes.iter().all(|t| t.descricao == "c"));
    s.create_transaction(1, tx(99, "d", "nova")).unwrap();
    let st2 = s.get_bank_statement(1).unwrap();
    let values2: Vec<i32> = st2.ultimas_transacoes.iter().map(|t| t.valor).collect();
    assert_eq!(values2, vec![99, 12, 11, 10, 9, 8, 7, 6, 5, 4]);
}

#[test]
fn records_carry_the_given_instant() {
    let mut s = AppState::new();
    s.create_transaction_at(1, tx(10, "c", "x"), "2024-02-01T10:00:00+00:00".to_string())
        .unwrap();
    let st = s.get_bank_statement_at(1, "2024-02-01T10:00:01+00:00".to_string()).unwrap();
    assert_eq!(st.ultimas_transacoes[0].realizado_em, "2024-02-01T10:00:00+00:00");
    assert_eq!(st.saldo.data_extrato, "2024-02-01T10:00:01+00:00");
}

#[test]
fn clock_gives_an_rfc3339_instant() {
    let s = AppState::new();
    let st = s.get_bank_statement(1).unwrap();
    let d = st.saldo.data_extrato;
    assert!(d.len() >= 20);
    assert!(d.contains('T'));
    assert!(d.starts_with("20"));
}

#[test]
fn serial_debits_stop_at_the_limit() {
    let mut s = AppState::new();
    let mut accepted = 0;
    let mut refused = 0;
    for _ in 0..7 {
        match s.create_transaction(1, tx(30000, "d", "lote")) {
            Ok(_) => accepted += 1,
            Err(LedgerError::LimitExceeded) => refused += 1,
            Err(e) => panic!("unexpected {:?}", e),
        }
    }
    assert_eq!(accepted, 3);
    assert_eq!(refused, 4);
    assert_eq!(s.get_bank_statement(1).unwrap().saldo.total, -90000);
}

#[test]
fn log_assigns_increasing_ids() {
    let mut log = LedgerLog::new();
    let rec = |uid: i32, v: i32| Statement {
        id: 0,
        valor: v,
        tipo: "c".to_string(),
        descricao: "r".to_string(),
        realizado_em: String::new(),
        user_id: uid,
    };
    assert_eq!(log.append(rec(1, 10)), 1);
    assert_eq!(log.append(rec(2, 20)), 2);
    assert_eq!(log.append(rec(1, 30)), 3);
    assert!(!log.is_exhausted());
    let r = log.recent(1, 10);
    assert_eq!(r.len(), 2);
    assert_eq!((r[0].id, r[0].valor), (3, 30));
    assert_eq!((r[1].id, r[1].valor), (1, 10));
    assert_eq!(log.recent(1, 1).len(), 1);
    assert!(log.recent(3, 10).is_empty());
    assert!(log.recent(2, 0).is_empty());
}

#[test]
fn kinds_parse() {
    assert_eq!(TxKind::parse("c"), Some(TxKind::Credit));
    assert_eq!(TxKind::parse("d"), Some(TxKind::Debit));
    assert_eq!(TxKind::parse("x"), None);
    assert_eq!(TxKind::parse(""), None);
    assert_eq!(TxKind::parse("dd"), None);
}

#[test]
fn account_store_credits_and_debits() {
    let mut a = AccountStore::provisioned();
    assert_eq!(a.get(1).map(|u| (u.id, u.limite, u.saldo)), Some((1, 100000, 0)));
    assert!(a.get(7).is_none());
    assert_eq!(a.apply_debit(2, 50000), Ok(-50000));
    assert_eq!(a.apply_debit(2, 30001), Err(LedgerError::LimitExceeded));
    assert_eq!(a.get(2).unwrap().saldo, -50000);
    assert_eq!(a.apply_credit(2, 1), Ok(-49999));
    assert_eq!(a.apply_credit(9, 1), Err(LedgerError::AccountNotFound));
    assert_eq!(a.apply_debit(9, 1), Err(LedgerError::AccountNotFound));
}
