use vstd::prelude::*;
use crate::types::Statement;

verus! {

/// Sequence ids increase strictly along the log, start at 1, and stay below `next`.
pub open spec fn log_wf(log: Seq<Statement>, next: int) -> bool {
    &&& 1 <= next <= i32::MAX
    &&& forall|i: int| 0 <= i < log.len() ==> 1 <= #[trigger] log[i].id < next
    &&& forall|i: int, j: int| 0 <= i < j < log.len() ==> #[trigger] log[i].id < #[trigger] log[j].id
}

/// Up to `n` records of account `uid`, most recent first.
pub open spec fn recent_of(log: Seq<Statement>, uid: i32, n: nat) -> Seq<Statement>
    decreases log.len(),
{
    if log.len() == 0 || n == 0 {
        Seq::empty()
    } else if log.last().user_id == uid {
        seq![log.last()] + recent_of(log.drop_last(), uid, (n - 1) as nat)
    } else {
        recent_of(log.drop_last(), uid, n)
    }
}

/// The append-only history of accepted transactions, in the order they came.
pub struct LedgerLog {
    statements: Vec<Statement>,
    next_id: i32,
}

impl View for LedgerLog {
    type V = Seq<Statement>;

    closed spec fn view(&self) -> Seq<Statement> {
        self.statements@
    }
}

impl LedgerLog {
    /// The sequence id that the next append hands out.
    pub closed spec fn next_seq(&self) -> int {
        self.next_id as int
    }

    /// Ids strictly increasing, all below the next one to hand out.
    pub open spec fn wf(&self) -> bool {
        log_wf(self@, self.next_seq())
    }

    /// An empty log whose first id will be 1.
    pub fn new() -> (r: LedgerLog)
        ensures
            r@ == Seq::<Statement>::empty(),
            r.next_seq() == 1,
            r.wf(),
    {
        LedgerLog { statements: Vec::new(), next_id: 1 }
    }

    /// Whether every id has been handed out, so that nothing more can be appended.
    pub fn is_exhausted(&self) -> (r: bool)
        ensures
            r == (self.next_seq() >= i32::MAX),
    {
        self.next_id == i32::MAX
    }

    /// Stores `record` under the next sequence id, which it returns.
    pub fn append(&mut self, record: Statement) -> (r: i32)
        requires
            old(self).wf(),
            old(self).next_seq() < i32::MAX,
        ensures
            final(self).wf(),
            r == old(self).next_seq(),
            final(self).next_seq() == old(self).next_seq() + 1,
            final(self)@ == old(self)@.push(Statement { id: r, ..record }),
    {
        let id = self.next_id;
        let rec = Statement { id, ..record };
        self.statements.push(rec);
        self.next_id = id + 1;
        id
    }

    /// Up to `limit` records of account `uid`, most recent first.
    pub fn recent(&self, uid: i32, limit: usize) -> (r: Vec<Statement>)
        ensures
            r@ == recent_of(self@, uid, limit as nat),
    {
        let mut r: Vec<Statement> = Vec::new();
        let mut i: usize = self.statements.len();
        assert(self@.subrange(0, i as int) =~= self@);
        assert(r@ + recent_of(self@, uid, limit as nat) =~= recent_of(self@, uid, limit as nat));
        while i > 0 && r.len() < limit
            invariant
                i <= self.statements@.len(),
                r@.len() <= limit,
                recent_of(self@, uid, limit as nat) == r@ + recent_of(
                    self@.subrange(0, i as int),
                    uid,
                    (limit - r@.len()) as nat,
                ),
            decreases i,
        {
            let ghost pre = self@.subrange(0, i as int);
            assert(pre.drop_last() =~= self@.subrange(0, i - 1));
            let s = &self.statements[i - 1];
            if s.user_id == uid {
                let ghost old_r = r@;
                r.push(s.duplicate());
                assert(old_r + recent_of(pre, uid, (limit - old_r.len()) as nat) =~= r@ + recent_of(
                    self@.subrange(0, i - 1),
                    uid,
                    (limit - r@.len()) as nat,
                ));
            }
            i = i - 1;
        }
        assert(recent_of(self@.subrange(0, i as int), uid, (limit - r@.len()) as nat) =~= Seq::<
            Statement,
        >::empty());
        assert(r@ + Seq::<Statement>::empty() =~= r@);
        r
    }
}

} // verus!
