//! Hardware reset sequence for the e1000.
//!
//! Must be done on the raw register accessor **before** the device is set up.
//! The reset is what brings the device into a known state where ring init can
//! succeed.

use super::regs::{CTL, CTL_ASDE, CTL_RST, CTL_SLU, FCAH, FCAL, FCT, FCTTV, IMS};
use crate::regs::{extends, since, since_push, RegOp, RegisterAccess, Traced};
use vstd::prelude::*;

verus! {

/// How often the end of a reset is looked for.
pub const RESET_POLLS: u32 = 100_000;

/// How a reset went.
#[derive(Debug, Clone, Copy, PartialEq, Eq, Structural)]
pub enum ResetOutcome {
    /// The device is in a known state.
    Complete,
    /// The device did not come out of reset.
    TimedOut,
}

/// The accesses that begin a reset: interrupts off, reset bit set.
pub open spec fn reset_begin(ctl: u32) -> Seq<RegOp> {
    seq![
        RegOp::Write { offset: IMS, value: 0 },
        RegOp::Read { offset: CTL, value: ctl },
        RegOp::Write { offset: CTL, value: ctl | CTL_RST },
    ]
}

/// Reads of the control register, one for each of `values`.
pub open spec fn reset_polls(values: Seq<u32>) -> Seq<RegOp> {
    values.map_values(|value: u32| RegOp::Read { offset: CTL, value })
}

/// The accesses that end a reset: interrupts off, link up, flow control off.
pub open spec fn reset_end() -> Seq<RegOp> {
    seq![
        RegOp::Write { offset: IMS, value: 0 },
        RegOp::Write { offset: CTL, value: CTL_SLU | CTL_ASDE },
        RegOp::Write { offset: FCAL, value: 0 },
        RegOp::Write { offset: FCAH, value: 0 },
        RegOp::Write { offset: FCT, value: 0 },
        RegOp::Write { offset: FCTTV, value: 0 },
    ]
}

/// Whether the control register says that a reset is still going on.
pub open spec fn resetting(ctl: u32) -> bool {
    ctl & CTL_RST != 0
}

/// What a reset does to a device that gave `ctl` and then `values`: it is
/// looked at until it is out of reset, and configured then; or given up.
pub open spec fn reset_ops(ctl: u32, values: Seq<u32>, outcome: ResetOutcome) -> Seq<RegOp> {
    match outcome {
        ResetOutcome::Complete => reset_begin(ctl) + reset_polls(values) + reset_end(),
        ResetOutcome::TimedOut => reset_begin(ctl) + reset_polls(values),
    }
}

/// Which readings of the control register lead to which outcome.
pub open spec fn reset_readings(values: Seq<u32>, outcome: ResetOutcome) -> bool {
    &&& 1 <= values.len() <= RESET_POLLS
    &&& forall|i: int| 0 <= i < values.len() - 1 ==> resetting(#[trigger] values[i])
    &&& match outcome {
        ResetOutcome::Complete => !resetting(values.last()),
        ResetOutcome::TimedOut => resetting(values.last()) && values.len() == RESET_POLLS,
    }
}

/// Reset an e1000 device to a clean post-reset state.
///
/// Disables interrupts, triggers a hardware reset, waits for completion, then
/// configures CTRL with `SLU | ASDE` and clears flow control registers. Gives
/// up if reset doesn't complete within 100k iterations.
///
/// Callers also need to enable PCI bus mastering (separately, via the PCI bus
/// interface) before setting up the device.
pub fn reset_device<R: RegisterAccess>(regs: &mut Traced<R>) -> (outcome: ResetOutcome)
    ensures
        extends(old(regs).trace(), final(regs).trace()),
        exists|ctl: u32, values: Seq<u32>|
            reset_readings(values, outcome) && since(old(regs).trace(), final(regs).trace())
                == #[trigger] reset_ops(ctl, values, outcome),
{
    let ghost before = regs.trace();
    regs.write_reg(IMS, 0);
    let ctl: u32 = regs.read_reg(CTL);
    regs.write_reg(CTL, ctl | CTL_RST);
    let ghost mut values: Seq<u32> = Seq::empty();
    let mut timeout: u32 = RESET_POLLS;
    assert(since(before, regs.trace()) =~= reset_begin(ctl) + reset_polls(values));
    loop
        invariant_except_break
            0 < timeout <= RESET_POLLS,
            values.len() == RESET_POLLS - timeout,
            before == old(regs).trace(),
            extends(before, regs.trace()),
            since(before, regs.trace()) == reset_begin(ctl) + reset_polls(values),
            forall|i: int| 0 <= i < values.len() ==> resetting(#[trigger] values[i]),
        ensures
            0 < timeout,
            1 <= values.len() <= RESET_POLLS,
            before == old(regs).trace(),
            extends(before, regs.trace()),
            since(before, regs.trace()) == reset_begin(ctl) + reset_polls(values),
            forall|i: int| 0 <= i < values.len() - 1 ==> resetting(#[trigger] values[i]),
            !resetting(values.last()),
        decreases timeout,
    {
        let ghost prior = regs.trace();
        let value: u32 = regs.read_reg(CTL);
        proof {
            let more = values.push(value);
            since_push(before, prior, RegOp::Read { offset: CTL, value });
            assert(reset_polls(more) =~= reset_polls(values).push(
                RegOp::Read { offset: CTL, value },
            ));
            assert(since(before, regs.trace()) =~= reset_begin(ctl) + reset_polls(more));
            values = more;
        }
        if value & CTL_RST == 0 {
            break;
        }
        timeout -= 1;
        if timeout == 0 {
            assert(reset_readings(values, ResetOutcome::TimedOut));
            assert(since(before, regs.trace()) == reset_ops(ctl, values, ResetOutcome::TimedOut));
            return ResetOutcome::TimedOut;
        }
    }
    let ghost middle = since(before, regs.trace());
    regs.write_reg(IMS, 0);
    regs.write_reg(CTL, CTL_SLU | CTL_ASDE);
    regs.write_reg(FCAL, 0);
    regs.write_reg(FCAH, 0);
    regs.write_reg(FCT, 0);
    regs.write_reg(FCTTV, 0);
    proof {
        assert(since(before, regs.trace()) =~= middle + reset_end());
        assert(reset_readings(values, ResetOutcome::Complete));
        assert(since(before, regs.trace()) == reset_ops(ctl, values, ResetOutcome::Complete));
    }
    ResetOutcome::Complete
}

// ── What a reset comes to ───────────────────────────────────────────────

/// What is done to a device that is reset, access by access. Interrupts are
/// turned off, and bit 26 of the control register is set beside what it reads.
/// The register is read until that bit is clear, at most a hundred thousand
/// times; then interrupts are off again, the link is brought up with its speed
/// detected, and flow control is off. A device whose bit stays set is left at
/// that.
pub proof fn device_is_reset<R: RegisterAccess>(outcome: ResetOutcome)
    ensures
        forall|regs: &mut Traced<R>| #[trigger]
            call_ensures(reset_device::<R>, (regs,), outcome) ==> ({
                let ops = (*final(regs)).trace().skip((*regs).trace().len() as int);
                let polls: int = if outcome == ResetOutcome::Complete {
                    ops.len() - 9
                } else {
                    ops.len() - 3
                };
                &&& 1 <= polls <= 100_000
                &&& ops[0] == (RegOp::Write { offset: 52, value: 0 })
                &&& ops[1] is Read && ops[1]->Read_offset == 0
                &&& ops[2] is Write && ops[2]->Write_offset == 0
                &&& ops[2]->Write_value / 0x400_0000 % 2 == 1
                &&& ops[2]->Write_value / 0x800_0000 == ops[1]->Read_value / 0x800_0000
                &&& ops[2]->Write_value % 0x400_0000 == ops[1]->Read_value % 0x400_0000
                &&& forall|i: int|
                    3 <= i < 3 + polls ==> {
                        &&& (#[trigger] ops[i]) is Read
                        &&& ops[i]->Read_offset == 0
                        &&& i < 2 + polls ==> ops[i]->Read_value / 0x400_0000 % 2 == 1
                    }
                &&& match outcome {
                    ResetOutcome::Complete => {
                        &&& ops[2 + polls]->Read_value / 0x400_0000 % 2 == 0
                        &&& ops[3 + polls] == (RegOp::Write { offset: 52, value: 0 })
                        &&& ops[4 + polls] == (RegOp::Write { offset: 0, value: 0x60 })
                        &&& ops[5 + polls] == (RegOp::Write { offset: 10, value: 0 })
                        &&& ops[6 + polls] == (RegOp::Write { offset: 11, value: 0 })
                        &&& ops[7 + polls] == (RegOp::Write { offset: 12, value: 0 })
                        &&& ops[8 + polls] == (RegOp::Write { offset: 92, value: 0 })
                    },
                    ResetOutcome::TimedOut => {
                        &&& polls == 100_000
                        &&& ops[2 + polls]->Read_value / 0x400_0000 % 2 == 1
                    },
                }
            }) && (*final(regs)).trace().take((*regs).trace().len() as int) == (*regs).trace(),
{
    assert forall|regs: &mut Traced<R>| #[trigger]
        call_ensures(reset_device::<R>, (regs,), outcome) implies was_reset(
        (*final(regs)).trace().skip((*regs).trace().len() as int),
        outcome,
    ) by {
        let ops = since((*regs).trace(), (*final(regs)).trace());
        let (ctl, values) = choose|ctl: u32, values: Seq<u32>|
            reset_readings(values, outcome) && ops == #[trigger] reset_ops(ctl, values, outcome);
        reset_is_so(ctl, values, outcome);
    }
}

/// Whether `ops` is what a reset with this outcome does.
pub open spec fn was_reset(ops: Seq<RegOp>, outcome: ResetOutcome) -> bool {
    let polls: int = if outcome == ResetOutcome::Complete {
        ops.len() - 9
    } else {
        ops.len() - 3
    };
    &&& 1 <= polls <= 100_000
    &&& ops[0] == (RegOp::Write { offset: 52, value: 0 })
    &&& ops[1] is Read && ops[1]->Read_offset == 0
    &&& ops[2] is Write && ops[2]->Write_offset == 0
    &&& ops[2]->Write_value / 0x400_0000 % 2 == 1
    &&& ops[2]->Write_value / 0x800_0000 == ops[1]->Read_value / 0x800_0000
    &&& ops[2]->Write_value % 0x400_0000 == ops[1]->Read_value % 0x400_0000
    &&& forall|i: int|
        3 <= i < 3 + polls ==> {
            &&& (#[trigger] ops[i]) is Read
            &&& ops[i]->Read_offset == 0
            &&& i < 2 + polls ==> ops[i]->Read_value / 0x400_0000 % 2 == 1
        }
    &&& match outcome {
        ResetOutcome::Complete => {
            &&& ops[2 + polls]->Read_value / 0x400_0000 % 2 == 0
            &&& ops[3 + polls] == (RegOp::Write { offset: 52, value: 0 })
            &&& ops[4 + polls] == (RegOp::Write { offset: 0, value: 0x60 })
            &&& ops[5 + polls] == (RegOp::Write { offset: 10, value: 0 })
            &&& ops[6 + polls] == (RegOp::Write { offset: 11, value: 0 })
            &&& ops[7 + polls] == (RegOp::Write { offset: 12, value: 0 })
            &&& ops[8 + polls] == (RegOp::Write { offset: 92, value: 0 })
        },
        ResetOutcome::TimedOut => {
            &&& polls == 100_000
            &&& ops[2 + polls]->Read_value / 0x400_0000 % 2 == 1
        },
    }
}

proof fn reset_bit_is_26(ctl: u32)
    ensures
        resetting(ctl) <==> ctl / 0x400_0000 % 2 == 1,
        (ctl | CTL_RST) / 0x400_0000 % 2 == 1,
        (ctl | CTL_RST) / 0x800_0000 == ctl / 0x800_0000,
        (ctl | CTL_RST) % 0x400_0000 == ctl % 0x400_0000,
{
    assert((ctl & 0x400_0000 != 0 <==> ctl / 0x400_0000 % 2 == 1) && (ctl | 0x400_0000)
        / 0x400_0000 % 2 == 1 && (ctl | 0x400_0000) / 0x800_0000 == ctl / 0x800_0000 && (ctl
        | 0x400_0000) % 0x400_0000 == ctl % 0x400_0000) by (bit_vector);
}

/// A reset that read the control register so is one of its outcome.
pub proof fn reset_is_so(ctl: u32, values: Seq<u32>, outcome: ResetOutcome)
    requires
        reset_readings(values, outcome),
    ensures
        was_reset(reset_ops(ctl, values, outcome), outcome),
{
    let ops = reset_ops(ctl, values, outcome);
    let polls = values.len() as int;
    reset_bit_is_26(ctl);
    reset_bit_is_26(values.last());
    assert(0x40u32 | 0x20 == 0x60) by (bit_vector);
    assert forall|i: int| 3 <= i < 3 + polls implies {
        &&& (#[trigger] ops[i]) is Read
        &&& ops[i]->Read_offset == 0
        &&& ops[i]->Read_value == values[i - 3]
        &&& i < 2 + polls ==> ops[i]->Read_value / 0x400_0000 % 2 == 1
    } by {
        assert(ops[i] == reset_polls(values)[i - 3]);
        reset_bit_is_26(values[i - 3]);
        if i < 2 + polls {
            assert(resetting(values[i - 3]));
        }
    }
    assert(ops[2 + polls]->Read_value == values[polls - 1]);
    if outcome == ResetOutcome::Complete {
        assert forall|k: int| 0 <= k < 6 implies ops[3 + polls + k] == #[trigger] reset_end()[k] by {}
        assert(ops[3 + polls + 0] == reset_end()[0]);
        assert(ops[3 + polls + 1] == reset_end()[1]);
        assert(ops[3 + polls + 2] == reset_end()[2]);
        assert(ops[3 + polls + 3] == reset_end()[3]);
        assert(ops[3 + polls + 4] == reset_end()[4]);
        assert(ops[3 + polls + 5] == reset_end()[5]);
    }
}

} // verus!
