//! An in-memory bus with a register file behind it, for exercising the
//! driver without hardware. It logs every successful write and read,
//! counts every attempted transaction, answers reads from the last value
//! written to the register, and can be scripted to fail writes from the
//! nth one on, to fail every read, or to corrupt the value it echoes on
//! read-back. Each script is stated in the contracts of its bus methods,
//! not only in prose.

use vstd::prelude::*;
use crate::bus::RegisterBus;
use crate::registers::RegRead;
use crate::registers::RegWrite;

verus! {

/// The error a [`SimulatedBus`] reports when a scripted fault fires.
#[derive(Clone, Copy, Debug, PartialEq, Eq, Structural)]
pub struct SimFault;

/// The value a read of `register` returns on a bus whose write history is
/// `log`: the value of the last write to that register, or zero if the
/// register was never written.
pub open spec fn stored_value(log: Seq<RegWrite>, register: u8) -> u8
    decreases log.len(),
{
    if log.len() == 0 {
        0u8
    } else if log.last().register == register {
        log.last().value
    } else {
        stored_value(log.drop_last(), register)
    }
}

/// A scripted transaction budget after one more successful transaction:
/// unlimited stays unlimited, an exhausted budget stays exhausted, and
/// anything else counts down by one.
pub open spec fn budget_after(budget: Option<u64>) -> Option<u64> {
    match budget {
        Option::None => Option::None,
        Option::Some(k) => if k == 0 {
            Option::Some(0u64)
        } else {
            Option::Some((k - 1) as u64)
        },
    }
}

/// A simulated register bus. Reads echo the register file unless scripted
/// otherwise; writes succeed until the scripted budget runs out.
pub struct SimulatedBus {
    log: Vec<RegWrite>,
    read_log: Vec<RegRead>,
    ok_writes_left: Option<u64>,
    true_reads_left: Option<u64>,
    fail_reads: bool,
    attempts: Ghost<nat>,
}

impl SimulatedBus {
    /// How many more writes succeed before the scripted write fault:
    /// `None` for a bus whose writes always succeed.
    pub closed spec fn ok_writes_budget(&self) -> Option<u64> {
        self.ok_writes_left
    }

    /// How many more reads echo the stored value before the script
    /// corrupts them: `None` for a bus whose reads are always honest.
    pub closed spec fn honest_reads_budget(&self) -> Option<u64> {
        self.true_reads_left
    }

    /// Whether every read fails with [`SimFault`].
    pub closed spec fn reads_fail(&self) -> bool {
        self.fail_reads
    }

    /// Shorthand: a freshly scripted bus with empty histories.
    pub open spec fn is_fresh(&self) -> bool {
        self.writes() == Seq::<RegWrite>::empty() && self.reads() == Seq::<RegRead>::empty()
            && self.attempts() == 0
    }

    /// A bus on which every transaction succeeds and every read echoes the
    /// stored value.
    pub fn new() -> (r: SimulatedBus)
        ensures
            r.is_fresh(),
            r.ok_writes_budget() == Option::<u64>::None,
            r.honest_reads_budget() == Option::<u64>::None,
            !r.reads_fail(),
    {
        SimulatedBus {
            log: Vec::new(),
            read_log: Vec::new(),
            ok_writes_left: None,
            true_reads_left: None,
            fail_reads: false,
            attempts: Ghost(0),
        }
    }

    /// A bus on which the first `n` writes succeed and every later write
    /// fails with [`SimFault`]. Reads are unaffected.
    pub fn failing_after_writes(n: u64) -> (r: SimulatedBus)
        ensures
            r.is_fresh(),
            r.ok_writes_budget() == Option::Some(n),
            r.honest_reads_budget() == Option::<u64>::None,
            !r.reads_fail(),
    {
        SimulatedBus {
            log: Vec::new(),
            read_log: Vec::new(),
            ok_writes_left: Some(n),
            true_reads_left: None,
            fail_reads: false,
            attempts: Ghost(0),
        }
    }

    /// A bus on which the first `n` reads echo the stored value and every
    /// later read echoes a corrupted one. Writes are unaffected.
    pub fn corrupting_reads_after(n: u64) -> (r: SimulatedBus)
        ensures
            r.is_fresh(),
            r.ok_writes_budget() == Option::<u64>::None,
            r.honest_reads_budget() == Option::Some(n),
            !r.reads_fail(),
    {
        SimulatedBus {
            log: Vec::new(),
            read_log: Vec::new(),
            ok_writes_left: None,
            true_reads_left: Some(n),
            fail_reads: false,
            attempts: Ghost(0),
        }
    }

    /// A bus on which every read fails with [`SimFault`]. Writes are
    /// unaffected.
    pub fn failing_reads() -> (r: SimulatedBus)
        ensures
            r.is_fresh(),
            r.ok_writes_budget() == Option::<u64>::None,
            r.honest_reads_budget() == Option::<u64>::None,
            r.reads_fail(),
    {
        SimulatedBus {
            log: Vec::new(),
            read_log: Vec::new(),
            ok_writes_left: None,
            true_reads_left: None,
            fail_reads: true,
            attempts: Ghost(0),
        }
    }

    /// How many writes have completed on this bus.
    pub fn write_count(&self) -> (n: usize)
        ensures
            n == self.writes().len(),
    {
        self.log.len()
    }

    /// How many reads have completed on this bus.
    pub fn read_count(&self) -> (n: usize)
        ensures
            n == self.reads().len(),
    {
        self.read_log.len()
    }

    /// A copy of the write history, oldest first, for inspection.
    pub fn writes_vec(&self) -> (r: Vec<RegWrite>)
        ensures
            r@ == self.writes(),
    {
        let mut out: Vec<RegWrite> = Vec::new();
        let mut i: usize = 0;
        while i < self.log.len()
            invariant
                i <= self.log@.len(),
                out@ == self.log@.take(i as int),
            decreases self.log@.len() - i,
        {
            out.push(self.log[i]);
            proof {
                assert(self.log@.take(i as int).push(self.log@[i as int]) =~= self.log@.take(
                    i as int + 1,
                ));
            }
            i = i + 1;
        }
        proof {
            assert(self.log@.take(self.log@.len() as int) =~= self.log@);
        }
        out
    }

    /// A copy of the read history, oldest first, for inspection.
    pub fn reads_vec(&self) -> (r: Vec<RegRead>)
        ensures
            r@ == self.reads(),
    {
        let mut out: Vec<RegRead> = Vec::new();
        let mut i: usize = 0;
        while i < self.read_log.len()
            invariant
                i <= self.read_log@.len(),
                out@ == self.read_log@.take(i as int),
            decreases self.read_log@.len() - i,
        {
            out.push(self.read_log[i]);
            proof {
                assert(self.read_log@.take(i as int).push(self.read_log@[i as int])
                    =~= self.read_log@.take(i as int + 1));
            }
            i = i + 1;
        }
        proof {
            assert(self.read_log@.take(self.read_log@.len() as int) =~= self.read_log@);
        }
        out
    }

    /// The value currently stored in `register`: the last value written to
    /// it, or zero.
    pub fn stored(&self, register: u8) -> (r: u8)
        ensures
            r == stored_value(self.writes(), register),
    {
        proof {
            assert(self.log@.take(self.log@.len() as int) =~= self.log@);
        }
        let mut i: usize = self.log.len();
        while i > 0
            invariant
                i <= self.log@.len(),
                stored_value(self.log@, register) == stored_value(
                    self.log@.take(i as int),
                    register,
                ),
            decreases i,
        {
            i = i - 1;
            proof {
                assert(self.log@.take(i as int + 1).last() == self.log@[i as int]);
                assert(self.log@.take(i as int + 1).drop_last() =~= self.log@.take(i as int));
            }
            if self.log[i].register == register {
                return self.log[i].value;
            }
        }
        0
    }
}

impl RegisterBus for SimulatedBus {
    type Error = SimFault;

    closed spec fn writes(&self) -> Seq<RegWrite> {
        self.log@
    }

    closed spec fn reads(&self) -> Seq<RegRead> {
        self.read_log@
    }

    closed spec fn attempts(&self) -> nat {
        self.attempts@
    }

    fn write_register(&mut self, address: u8, register: u8, value: u8) -> (r: Result<
        (),
        SimFault,
    >)
        ensures
            r is Err <==> old(self).ok_writes_budget() == Option::Some(0u64),
            r is Ok ==> final(self).ok_writes_budget() == budget_after(
                old(self).ok_writes_budget(),
            ),
            r is Err ==> final(self).ok_writes_budget() == old(self).ok_writes_budget(),
            final(self).honest_reads_budget() == old(self).honest_reads_budget(),
            final(self).reads_fail() == old(self).reads_fail(),
    {
        self.attempts = Ghost(self.attempts@ + 1);
        match self.ok_writes_left {
            Some(k) => {
                if k == 0 {
                    return Err(SimFault);
                }
                self.ok_writes_left = Some(k - 1);
            },
            None => {},
        }
        self.log.push(RegWrite { address, register, value });
        Ok(())
    }

    fn read_register(&mut self, address: u8, register: u8) -> (r: Result<u8, SimFault>)
        ensures
            r is Err <==> old(self).reads_fail(),
            final(self).ok_writes_budget() == old(self).ok_writes_budget(),
            final(self).reads_fail() == old(self).reads_fail(),
            r is Ok ==> final(self).honest_reads_budget() == budget_after(
                old(self).honest_reads_budget(),
            ),
            r is Err ==> final(self).honest_reads_budget() == old(self).honest_reads_budget(),
            r matches Ok(v) ==> (old(self).honest_reads_budget() == Option::Some(0u64) ==> v
                == stored_value(old(self).writes(), register) ^ 0x01 && v != stored_value(
                old(self).writes(),
                register,
            )) && (old(self).honest_reads_budget() != Option::Some(0u64) ==> v == stored_value(
                old(self).writes(),
                register,
            )),
    {
        self.attempts = Ghost(self.attempts@ + 1);
        if self.fail_reads {
            return Err(SimFault);
        }
        let honest = self.stored(register);
        let v: u8;
        match self.true_reads_left {
            None => {
                v = honest;
            },
            Some(k) => {
                if k > 0 {
                    self.true_reads_left = Some(k - 1);
                    v = honest;
                } else {
                    v = honest ^ 0x01;
                    proof {
                        let s = stored_value(old(self).writes(), register);
                        assert(s ^ 0x01 != s) by (bit_vector);
                    }
                }
            },
        }
        self.read_log.push(RegRead { address, register, value: v });
        Ok(v)
    }
}

} // verus!
