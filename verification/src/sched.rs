//! Continuation scheduler.
//!
//! The scheduler owns the table of pending operations: for each socket and
//! operation kind at most one registration may be outstanding, and each
//! registration carries the continuation to run when the operation
//! completes.  The surrounding binary performs the actual socket calls; when
//! it observes a completion it asks the table for the matching registration,
//! which is removed as it is handed out, so a continuation fires exactly
//! once.

use vstd::prelude::*;
use crate::fault::FaultKind;

verus! {

/// The kind of a non-blocking socket operation.
#[derive(Clone, Copy, PartialEq, Eq, Structural, Debug)]
pub enum OpKind {
    Connect,
    Send,
    Recv,
}

/// A unit of simulator logic registered to run when an operation completes.
#[derive(Clone, Copy, PartialEq, Eq, Structural, Debug)]
pub enum Continuation {
    /// The client connection became established: issue the first request.
    ClientConnected,
    /// A request of the given fault class was fully written: await the
    /// response.
    ClientSent { fault: FaultKind },
    /// Response bytes arrived for a request of the given fault class:
    /// validate them.
    ClientRecv { fault: FaultKind },
}

/// One outstanding registration: a socket, an operation kind, and the
/// continuation to invoke on completion.
#[derive(Clone, Copy, PartialEq, Eq, Structural, Debug)]
pub struct PendingOp {
    pub sock: u64,
    pub kind: OpKind,
    pub cont: Continuation,
}

/// The pending-operation table.
pub struct Scheduler {
    pub pending: Vec<PendingOp>,
}

impl Scheduler {
    /// The outstanding registrations, in registration order.
    pub open spec fn ops(self) -> Seq<PendingOp> {
        self.pending@
    }

    pub open spec fn spec_has_pending(self, sock: u64, kind: OpKind) -> bool {
        exists|i: int|
            0 <= i < self.ops().len() && (#[trigger] self.ops()[i]).sock == sock
                && self.ops()[i].kind == kind
    }

    /// No double registration: a socket never has two outstanding operations
    /// of the same kind.
    pub open spec fn wf(self) -> bool {
        forall|i: int, j: int|
            0 <= i < j < self.ops().len() ==> !((#[trigger] self.ops()[i]).sock
                == (#[trigger] self.ops()[j]).sock && self.ops()[i].kind == self.ops()[j].kind)
    }

    pub fn new() -> (s: Scheduler)
        ensures
            s.wf(),
            s.ops().len() == 0,
    {
        Scheduler { pending: Vec::new() }
    }

    pub fn has_pending(&self, sock: u64, kind: OpKind) -> (b: bool)
        ensures
            b == self.spec_has_pending(sock, kind),
    {
        let n = self.pending.len();
        let mut i: usize = 0;
        while i < n
            invariant
                n == self.ops().len(),
                0 <= i <= n,
                forall|k: int|
                    0 <= k < i ==> !((#[trigger] self.ops()[k]).sock == sock && self.ops()[k].kind
                        == kind),
            decreases n - i,
        {
            let op = self.pending[i];
            if op.sock == sock && op.kind == kind {
                return true;
            }
            i = i + 1;
        }
        false
    }

    /// Registers interest: at most one operation of a kind per socket, so a
    /// second registration before completion is ruled out by the caller.
    pub fn register(&mut self, sock: u64, kind: OpKind, cont: Continuation)
        requires
            old(self).wf(),
            !old(self).spec_has_pending(sock, kind),
        ensures
            final(self).wf(),
            final(self).ops() == old(self).ops().push(
                PendingOp { sock, kind, cont },
            ),
            final(self).spec_has_pending(sock, kind),
    {
        let op = PendingOp { sock, kind, cont };
        self.pending.push(op);
        proof {
            let ops = self.ops();
            let n = ops.len() as int;
            assert forall|i: int, j: int| 0 <= i < j < n implies !((#[trigger] ops[i]).sock
                == (#[trigger] ops[j]).sock && ops[i].kind == ops[j].kind) by {
                if j < n - 1 {
                    assert(old(self).wf());
                    assert(ops[i] == old(self).ops()[i]);
                    assert(ops[j] == old(self).ops()[j]);
                } else {
                    assert(ops[j] == op);
                    assert(ops[i] == old(self).ops()[i]);
                    if ops[i].sock == sock && ops[i].kind == kind {
                        assert(old(self).spec_has_pending(sock, kind));
                    }
                }
            }
            assert(self.ops()[n - 1] == op);
        }
    }

    /// Takes the registration matching a completed operation out of the
    /// table and hands its continuation back; `None` when nothing was
    /// registered for this socket and kind.
    pub fn complete(&mut self, sock: u64, kind: OpKind) -> (c: Option<Continuation>)
        requires
            old(self).wf(),
        ensures
            final(self).wf(),
            c is Some <==> old(self).spec_has_pending(sock, kind),
            c is None ==> *final(self) == *old(self),
            c matches Some(cont) ==> exists|i: int|
                0 <= i < old(self).ops().len() && (#[trigger] old(self).ops()[i]).sock == sock
                    && old(self).ops()[i].kind == kind && cont == old(self).ops()[i].cont
                    && final(self).ops() == old(self).ops().remove(i),
            c is Some ==> final(self).ops().len() == old(self).ops().len() - 1,
            !final(self).spec_has_pending(sock, kind),
    {
        let n = self.pending.len();
        let mut i: usize = 0;
        while i < n
            invariant
                *self == *old(self),
                old(self).wf(),
                n == self.ops().len(),
                0 <= i <= n,
                forall|k: int|
                    0 <= k < i ==> !((#[trigger] self.ops()[k]).sock == sock && self.ops()[k].kind
                        == kind),
            decreases n - i,
        {
            let op = self.pending[i];
            if op.sock == sock && op.kind == kind {
                self.pending.remove(i);
                proof {
                    let oldops = old(self).ops();
                    let ops = self.ops();
                    assert(ops == oldops.remove(i as int));
                    oldops.remove_ensures(i as int);
                    assert forall|a: int, b: int| 0 <= a < b < ops.len() implies !((
                    #[trigger] ops[a]).sock == (#[trigger] ops[b]).sock && ops[a].kind
                        == ops[b].kind) by {
                        let a0 = if a < i { a } else { a + 1 };
                        let b0 = if b < i { b } else { b + 1 };
                        assert(ops[a] == oldops[a0]);
                        assert(ops[b] == oldops[b0]);
                    }
                    assert forall|k: int| 0 <= k < ops.len() implies !((#[trigger] ops[k]).sock
                        == sock && ops[k].kind == kind) by {
                        let k0 = if k < i { k } else { k + 1 };
                        assert(ops[k] == oldops[k0]);
                        if k0 != i && oldops[k0].sock == sock && oldops[k0].kind == kind {
                            if k0 < i {
                                assert(!(oldops[k0].sock == oldops[i as int].sock && oldops[k0].kind
                                    == oldops[i as int].kind));
                            } else {
                                assert(!(oldops[i as int].sock == oldops[k0].sock
                                    && oldops[i as int].kind == oldops[k0].kind));
                            }
                        }
                    }
                }
                return Some(op.cont);
            }
            i = i + 1;
        }
        None
    }
}

/// Law: in a well-formed table two distinct registrations never share both
/// their socket and their operation kind.
pub proof fn lemma_no_double_registration(s: Scheduler, i: int, j: int)
    requires
        s.wf(),
        0 <= i < s.ops().len(),
        0 <= j < s.ops().len(),
        i != j,
        s.ops()[i].sock == s.ops()[j].sock,
    ensures
        s.ops()[i].kind != s.ops()[j].kind,
{
    if i < j {
        assert(!(s.ops()[i].sock == s.ops()[j].sock && s.ops()[i].kind == s.ops()[j].kind));
    } else {
        assert(!(s.ops()[j].sock == s.ops()[i].sock && s.ops()[j].kind == s.ops()[i].kind));
    }
}

} // verus!
