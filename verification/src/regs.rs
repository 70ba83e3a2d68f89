//! Access to files of 32-bit device registers.
//!
//! Drivers in this crate do not touch hardware themselves: they are written
//! against [`RegisterAccess`]. They reach it through [`Traced`], so that what
//! a driver does to a device can be stated as the list of accesses it makes,
//! in order.

use vstd::prelude::*;

verus! {

/// One access to a register.
#[derive(Debug, Clone, Copy, PartialEq, Eq, Structural)]
pub enum RegOp {
    /// The register at `offset` was read and gave `value`.
    Read { offset: usize, value: u32 },
    /// `value` was written to the register at `offset`.
    Write { offset: usize, value: u32 },
}

/// One write of a Model-Specific Register.
#[derive(Debug, Clone, Copy, PartialEq, Eq, Structural)]
pub struct MsrWrite {
    pub reg: u32,
    pub value: u64,
}

/// A file of 32-bit registers.
///
/// What an offset counts (bytes, words, configuration addresses) is up to the
/// register file. A read may give anything; a device may change its registers
/// between two reads.
pub trait RegisterAccess {
    /// Read the register at `offset`.
    fn read_reg(&mut self, offset: usize) -> u32;

    /// Write the register at `offset`.
    fn write_reg(&mut self, offset: usize, value: u32);
}

/// A register file, together with a record of what was done to it. The record
/// exists only in proofs.
pub struct Traced<R> {
    inner: R,
    trace: Ghost<Seq<RegOp>>,
}

impl<R> Traced<R> {
    /// Every access so far, in order.
    pub closed spec fn trace(&self) -> Seq<RegOp> {
        self.trace@
    }

    /// The register file.
    pub closed spec fn regs(&self) -> R {
        self.inner
    }

    /// A register file that nothing has been done to yet.
    pub fn new(inner: R) -> (traced: Self)
        ensures
            traced.regs() == inner,
            traced.trace() == Seq::<RegOp>::empty(),
    {
        Traced { inner, trace: Ghost(Seq::empty()) }
    }

    /// The register file.
    pub fn inner(&self) -> (inner: &R)
        ensures
            *inner == self.regs(),
    {
        &self.inner
    }
}

impl<R: RegisterAccess> Traced<R> {
    /// Read the register at `offset`, with the register file's own
    /// `read_reg`.
    pub fn read_reg(&mut self, offset: usize) -> (value: u32)
        ensures
            final(self).trace() == old(self).trace().push(RegOp::Read { offset, value }),
            exists|regs: &mut R|
                *regs == old(self).regs() && *final(regs) == final(self).regs()
                    && #[trigger] call_ensures(
                    <R as RegisterAccess>::read_reg,
                    (regs, offset),
                    value,
                ),
    {
        let value: u32 = self.inner.read_reg(offset);
        proof {
            self.trace@ = self.trace@.push(RegOp::Read { offset, value });
        }
        value
    }

    /// Write the register at `offset`, with the register file's own
    /// `write_reg`.
    pub fn write_reg(&mut self, offset: usize, value: u32)
        ensures
            final(self).trace() == old(self).trace().push(RegOp::Write { offset, value }),
            exists|regs: &mut R|
                *regs == old(self).regs() && *final(regs) == final(self).regs()
                    && #[trigger] call_ensures(
                    <R as RegisterAccess>::write_reg,
                    (regs, offset, value),
                    (),
                ),
    {
        self.inner.write_reg(offset, value);
        proof {
            self.trace@ = self.trace@.push(RegOp::Write { offset, value });
        }
    }
}

/// The accesses that `after` has beyond `before`.
pub open spec fn since(before: Seq<RegOp>, after: Seq<RegOp>) -> Seq<RegOp> {
    after.skip(before.len() as int)
}

/// Whether `after` continues `before`.
pub open spec fn extends(before: Seq<RegOp>, after: Seq<RegOp>) -> bool {
    &&& before.len() <= after.len()
    &&& before =~= after.take(before.len() as int)
}

/// Whether the reads among `ops` gave what `space` holds.
pub open spec fn answered_by(ops: Seq<RegOp>, space: spec_fn(usize) -> u32) -> bool {
    forall|i: int|
        0 <= i < ops.len() ==> (#[trigger] ops[i] matches RegOp::Read { offset, value }
            ==> value == space(offset))
}

/// What registers that store what is written to them hold after `ops`.
pub open spec fn stored(space: spec_fn(usize) -> u32, ops: Seq<RegOp>) -> spec_fn(usize) -> u32
    decreases ops.len(),
{
    if ops.len() == 0 {
        space
    } else {
        let before = stored(space, ops.drop_last());
        match ops.last() {
            RegOp::Read { .. } => before,
            RegOp::Write { offset, value } => |o: usize|
                if o == offset {
                    value
                } else {
                    before(o)
                },
        }
    }
}

/// Whether every read among `ops` gave what such registers held by then.
pub open spec fn stored_answers(space: spec_fn(usize) -> u32, ops: Seq<RegOp>) -> bool {
    forall|i: int|
        0 <= i < ops.len() ==> (#[trigger] ops[i] matches RegOp::Read { offset, value }
            ==> value == stored(space, ops.take(i))(offset))
}

/// Whether `ops` only reads, and no register twice.
pub open spec fn reads_once(ops: Seq<RegOp>) -> bool {
    &&& forall|i: int| 0 <= i < ops.len() ==> #[trigger] ops[i] is Read
    &&& forall|i: int, j: int|
        0 <= i < j < ops.len() ==> (#[trigger] ops[i])->Read_offset != (#[trigger] ops[j])->Read_offset
}

/// The accesses between `before` and `after` are those up to `middle` and
/// those from there.
pub proof fn since_concat(before: Seq<RegOp>, middle: Seq<RegOp>, after: Seq<RegOp>)
    requires
        extends(before, middle),
        extends(middle, after),
    ensures
        extends(before, after),
        since(before, after) == since(before, middle) + since(middle, after),
{
    assert(before =~= after.take(before.len() as int)) by {
        assert forall|i: int| 0 <= i < before.len() implies before[i] == after[i] by {
            assert(before[i] == middle.take(before.len() as int)[i]);
            assert(middle[i] == after.take(middle.len() as int)[i]);
        }
    }
    assert(since(before, after) =~= since(before, middle) + since(middle, after)) by {
        assert forall|i: int| before.len() <= i < middle.len() implies middle[i] == after[i] by {
            assert(middle[i] == after.take(middle.len() as int)[i]);
        }
    }
}

/// One more access is one more of those since `before`.
pub proof fn since_push(before: Seq<RegOp>, after: Seq<RegOp>, op: RegOp)
    requires
        extends(before, after),
    ensures
        extends(before, after.push(op)),
        since(before, after.push(op)) == since(before, after).push(op),
{
    assert forall|i: int| 0 <= i < before.len() implies before[i] == after.push(op)[i] by {
        assert(before[i] == after.take(before.len() as int)[i]);
    }
    assert(since(before, after.push(op)) =~= since(before, after).push(op));
}

/// Whatever a device answers to reads of different registers, there are
/// register contents that it can be the answer of.
pub proof fn some_space_answers(ops: Seq<RegOp>)
    requires
        reads_once(ops),
    ensures
        exists|space: spec_fn(usize) -> u32| answered_by(ops, space),
    decreases ops.len(),
{
    if ops.len() == 0 {
        let space = |offset: usize| 0u32;
        assert(answered_by(ops, space));
    } else {
        let init = ops.drop_last();
        let last = ops.last();
        some_space_answers(init);
        let inner = choose|space: spec_fn(usize) -> u32| answered_by(init, space);
        let space = |offset: usize|
            if offset == last->Read_offset {
                last->Read_value
            } else {
                inner(offset)
            };
        assert forall|i: int| 0 <= i < ops.len() implies (#[trigger] ops[i] matches RegOp::Read {
            offset,
            value,
        } ==> value == space(offset)) by {
            if i < init.len() {
                assert(init[i] == ops[i]);
                assert(ops[i]->Read_offset != ops[ops.len() - 1]->Read_offset);
            }
        }
        assert(answered_by(ops, space));
    }
}

/// The record tells of each access once, as it was made, behind those before;
/// a register file that nothing was done to has none.
pub proof fn accesses_are_recorded<R: RegisterAccess>(inner: R, traced: Traced<R>, offset: usize, value: u32)
    ensures
        call_ensures(Traced::<R>::new, (inner,), traced) ==> traced.trace().len() == 0
            && traced.regs() == inner,
        forall|t: &mut Traced<R>| #[trigger]
            call_ensures(Traced::<R>::read_reg, (t, offset), value) ==> {
                let n = (*t).trace().len() as int;
                &&& (*final(t)).trace().len() == n + 1
                &&& (*final(t)).trace().take(n) == (*t).trace()
                &&& (*final(t)).trace()[n] == (RegOp::Read { offset, value })
            },
        forall|t: &mut Traced<R>| #[trigger]
            call_ensures(Traced::<R>::write_reg, (t, offset, value), ()) ==> {
                let n = (*t).trace().len() as int;
                &&& (*final(t)).trace().len() == n + 1
                &&& (*final(t)).trace().take(n) == (*t).trace()
                &&& (*final(t)).trace()[n] == (RegOp::Write { offset, value })
            },
{
    assert forall|t: &mut Traced<R>| #[trigger]
        call_ensures(Traced::<R>::read_reg, (t, offset), value) implies (*final(t)).trace().take(
        (*t).trace().len() as int,
    ) == (*t).trace() by {
        assert((*final(t)).trace().take((*t).trace().len() as int) =~= (*t).trace());
    }
    assert forall|t: &mut Traced<R>| #[trigger]
        call_ensures(Traced::<R>::write_reg, (t, offset, value), ()) implies (*final(
        t)).trace().take((*t).trace().len() as int) == (*t).trace() by {
        assert((*final(t)).trace().take((*t).trace().len() as int) =~= (*t).trace());
    }
}

} // verus!
