//! A verified in-memory bus double.
//!
//! [`MockBus`] models the device as a 256-byte register file and records
//! every transaction, so that a caller can check exactly which registers an
//! operation touched, in which order, and with which values. A single
//! injected failure lets error paths be exercised as well.

use vstd::prelude::*;

use crate::BusErrorKind;
use crate::BusEvent;
use crate::I2cBus;

verus! {

/// One recorded bus transaction.
#[derive(Debug, Clone, Copy, PartialEq, Eq, Structural)]
pub enum BusOp {
    /// A write of `value` into register `reg`.
    Write { reg: u8, value: u8 },
    /// A read of `count` bytes starting at register `reg`.
    Read { reg: u8, count: usize },
}

/// An in-memory register file that stands in for the device on the bus.
pub struct MockBus {
    regs: Vec<u8>,
    ops: Vec<BusOp>,
    log: Ghost<Seq<BusEvent>>,
    failure: Option<(usize, BusErrorKind)>,
}

impl MockBus {
    /// The simulated register file, one byte per address.
    pub closed spec fn spec_regs(&self) -> Seq<u8> {
        self.regs@
    }

    /// Every transaction seen so far, oldest first.
    pub closed spec fn spec_ops(&self) -> Seq<BusOp> {
        self.ops@
    }

    /// The register file covers the full 8-bit address space.
    pub open spec fn wf(&self) -> bool {
        self.spec_regs().len() == 256
    }

    /// Builds a bus whose registers all read zero and whose transaction
    /// record is empty.
    pub fn new() -> (m: MockBus)
        ensures
            m.wf(),
            m.spec_ops().len() == 0,
            m.spec_log().len() == 0,
            forall|i: int| 0 <= i < 256 ==> m.spec_regs()[i] == 0,
    {
        let mut regs: Vec<u8> = Vec::new();
        let mut i: usize = 0;
        while i < 256
            invariant
                i <= 256,
                regs@.len() == i,
                forall|j: int| 0 <= j < i ==> regs@[j] == 0,
            decreases 256 - i,
        {
            regs.push(0);
            i = i + 1;
        }
        MockBus { regs, ops: Vec::new(), log: Ghost(Seq::empty()), failure: None }
    }

    /// Stores `value` in register `reg` directly, without recording a
    /// transaction: test setup, not bus traffic.
    pub fn set_reg(&mut self, reg: u8, value: u8)
        requires
            old(self).wf(),
        ensures
            final(self).wf(),
            final(self).spec_regs() == old(self).spec_regs().update(reg as int, value),
            final(self).spec_ops() == old(self).spec_ops(),
    {
        self.regs.set(reg as usize, value);
    }

    /// Reads register `reg` directly, without recording a transaction.
    pub fn reg(&self, reg: u8) -> (v: u8)
        requires
            self.wf(),
        ensures
            v == self.spec_regs()[reg as int],
    {
        self.regs[reg as usize]
    }

    /// Makes the transaction that would otherwise be recorded at index `n`
    /// fail with `kind`; every other transaction succeeds. A failed
    /// transaction is not recorded and leaves the register file untouched.
    pub fn fail_at_op(&mut self, n: usize, kind: BusErrorKind)
        ensures
            final(self).spec_regs() == old(self).spec_regs(),
            final(self).spec_ops() == old(self).spec_ops(),
    {
        self.failure = Some((n, kind));
    }

    /// How many transactions have been recorded.
    pub fn op_count(&self) -> (n: usize)
        ensures
            n == self.spec_ops().len(),
    {
        self.ops.len()
    }

    /// The `i`-th recorded transaction, oldest first.
    pub fn op_at(&self, i: usize) -> (op: BusOp)
        requires
            i < self.spec_ops().len(),
        ensures
            op == self.spec_ops()[i as int],
    {
        self.ops[i]
    }
}

impl I2cBus for MockBus {
    closed spec fn spec_log(&self) -> Seq<BusEvent> {
        self.log@
    }

    fn write_register(&mut self, addr: u8, reg: u8, value: u8) -> (r: Result<(), BusErrorKind>) {
        match self.failure {
            Some((n, kind)) => {
                if self.ops.len() == n {
                    self.failure = None;
                    return Err(kind);
                }
            },
            None => (),
        }
        if (reg as usize) < self.regs.len() {
            self.regs.set(reg as usize, value);
        }
        self.ops.push(BusOp::Write { reg, value });
        self.log = Ghost(self.log@.push(BusEvent::Write { reg, value }));
        Ok(())
    }

    fn read_register_block(&mut self, addr: u8, reg: u8, n: usize) -> (r: Result<
        Vec<u8>,
        BusErrorKind,
    >) {
        match self.failure {
            Some((at, kind)) => {
                if self.ops.len() == at {
                    self.failure = None;
                    return Err(kind);
                }
            },
            None => (),
        }
        let mut bytes: Vec<u8> = Vec::new();
        let mut i: usize = 0;
        while i < n
            invariant
                i <= n,
                bytes@.len() == i,
            decreases n - i,
        {
            // Consecutive reads wrap around the register file.
            let idx: usize = ((reg as usize) + (i % 256)) % 256;
            let v: u8 = if idx < self.regs.len() {
                self.regs[idx]
            } else {
                0
            };
            bytes.push(v);
            i = i + 1;
        }
        self.ops.push(BusOp::Read { reg, count: n });
        self.log = Ghost(self.log@.push(BusEvent::Read { reg, data: bytes@ }));
        Ok(bytes)
    }
}

} // verus!
