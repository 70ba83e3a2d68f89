//! PCI configuration space.
//!
//! Configuration space is a register file ([`RegisterAccess`]) whose offsets
//! are configuration addresses, as they go to I/O port 0xCF8; the data goes
//! through port 0xCFC.

use crate::regs::{
    answered_by, extends, reads_once, since, since_concat, stored, stored_answers, RegOp,
    RegisterAccess, Traced,
};
use vstd::prelude::*;

verus! {

/// I/O port that takes a configuration address.
pub const PCI_CONFIG_ADDR: u16 = 0xCF8;

/// I/O port that gives and takes the register at that address.
pub const PCI_CONFIG_DATA: u16 = 0xCFC;

/// Command register.
pub const PCI_COMMAND: u8 = 0x04;

/// Class code and revision.
pub const PCI_CLASS_REV: u8 = 0x08;

/// Header type.
pub const PCI_HEADER_TYPE: u8 = 0x0E;

/// x86 PCI bus scanner using I/O ports 0xCF8/0xCFC.
pub struct PciBus;

/// A PCI device found during bus enumeration.
#[derive(Debug, Clone, Copy, PartialEq, Eq, Structural)]
pub struct PciDevice {
    pub bus: u8,
    pub dev: u8,
    pub func: u8,
    pub vendor: u16,
    pub device: u16,
    /// PCI class code (high byte of register 0x08+3).
    pub class: u8,
    /// PCI subclass (next byte down).
    pub subclass: u8,
}

// ── Addresses and words ─────────────────────────────────────────────────

/// The configuration address of a register: enable bit, bus, device,
/// function, and the offset of the word that holds the register.
pub open spec fn config_address(bus: u8, dev: u8, func: u8, offset: u8) -> u32 {
    (1u32 << 31) | ((bus as u32) << 16) | ((dev as u32) << 11) | ((func as u32) << 8) | ((
    offset as u32) & 0xFC)
}

/// For the devices (0..32) and functions (0..8) that a bus can have, the
/// parts of an address do not overlap: bit 31 is set, bits 30 to 24 and 1 to 0
/// are clear.
pub proof fn config_address_parts(bus: u8, dev: u8, func: u8, offset: u8)
    requires
        dev < 32,
        func < 8,
    ensures
        config_address(bus, dev, func, offset) == 0x8000_0000 + bus * 65536 + dev * 2048 + func
            * 256 + (offset / 4) * 4,
        config_address(bus, dev, func, offset) / 0x8000_0000 == 1,
        config_address(bus, dev, func, offset) / 0x100_0000 % 128 == 0,
        config_address(bus, dev, func, offset) % 4 == 0,
{
    assert((1u32 << 31) | ((bus as u32) << 16) | ((dev as u32) << 11) | ((func as u32) << 8) | ((
    offset as u32) & 0xFC) == 0x8000_0000 + bus * 65536 + dev * 2048 + func * 256 + (offset / 4)
        * 4) by (bit_vector)
        requires
            dev < 32,
            func < 8,
    ;
}

/// Two registers have the same address exactly if they are in the same word of
/// the same device.
pub proof fn config_addresses_differ(
    bus1: u8,
    dev1: u8,
    func1: u8,
    offset1: u8,
    bus2: u8,
    dev2: u8,
    func2: u8,
    offset2: u8,
)
    requires
        dev1 < 32,
        func1 < 8,
        dev2 < 32,
        func2 < 8,
    ensures
        config_address(bus1, dev1, func1, offset1) == config_address(bus2, dev2, func2, offset2)
            <==> bus1 == bus2 && dev1 == dev2 && func1 == func2 && offset1 / 4 == offset2 / 4,
{
    assert(((1u32 << 31) | ((bus1 as u32) << 16) | ((dev1 as u32) << 11) | ((func1 as u32) << 8) | ((
    offset1 as u32) & 0xFC) == (1u32 << 31) | ((bus2 as u32) << 16) | ((dev2 as u32) << 11) | ((
    func2 as u32) << 8) | ((offset2 as u32) & 0xFC)) <==> (bus1 == bus2 && dev1 == dev2 && func1
        == func2 && offset1 / 4 == offset2 / 4)) by (bit_vector)
        requires
            dev1 < 32,
            func1 < 8,
            dev2 < 32,
            func2 < 8,
    ;
}

/// The 16-bit register at `offset`, out of the word that holds it.
pub open spec fn half(word: u32, offset: u8) -> u16 {
    if offset / 2 % 2 == 0 {
        (word % 65536) as u16
    } else {
        (word / 65536) as u16
    }
}

/// `word` with the 16-bit register at `offset` replaced.
pub open spec fn with_half(word: u32, offset: u8, val: u16) -> u32 {
    if offset / 2 % 2 == 0 {
        (word - word % 65536 + val) as u32
    } else {
        (word % 65536 + 65536 * val) as u32
    }
}

/// A 16-bit register reads back as it was written, and its neighbour in the
/// same word is left alone.
pub proof fn half_round_trip(word: u32, offset: u8, other: u8, val: u16)
    ensures
        half(with_half(word, offset, val), offset) == val,
        offset / 2 % 2 != other / 2 % 2 ==> half(with_half(word, offset, val), other) == half(
            word,
            other,
        ),
{
}

/// An identification word that no device answers with.
pub open spec fn absent(id: u32) -> bool {
    id == 0xFFFF_FFFF
}

/// A device, from its identification word and its class word.
pub open spec fn described(bus: u8, dev: u8, func: u8, id: u32, class_rev: u32) -> PciDevice {
    PciDevice {
        bus,
        dev,
        func,
        vendor: (id % 65536) as u16,
        device: (id / 65536) as u16,
        class: (class_rev / 16777216) as u8,
        subclass: (class_rev / 65536 % 256) as u8,
    }
}

/// Where the word of a register lies.
pub open spec fn at(bus: u8, dev: u8, func: u8, offset: u8) -> usize {
    config_address(bus, dev, func, offset) as usize
}

/// The configuration address of a register.
pub fn pci_config_address(bus: u8, dev: u8, func: u8, offset: u8) -> (addr: u32)
    ensures
        addr == config_address(bus, dev, func, offset),
{
    (1u32 << 31) | ((bus as u32) << 16) | ((dev as u32) << 11) | ((func as u32) << 8) | ((
    offset as u32) & 0xFC)
}

/// Read the word that holds a register.
pub fn pci_read32<R: RegisterAccess>(cfg: &mut Traced<R>, bus: u8, dev: u8, func: u8, offset: u8) -> (val: u32)
    ensures
        final(cfg).trace() == old(cfg).trace().push(
            RegOp::Read { offset: at(bus, dev, func, offset), value: val },
        ),
{
    let addr: u32 = pci_config_address(bus, dev, func, offset);
    cfg.read_reg(addr as usize)
}

/// Write the word that holds a register.
pub fn pci_write32<R: RegisterAccess>(cfg: &mut Traced<R>, bus: u8, dev: u8, func: u8, offset: u8, val: u32)
    ensures
        final(cfg).trace() == old(cfg).trace().push(
            RegOp::Write { offset: at(bus, dev, func, offset), value: val },
        ),
{
    let addr: u32 = pci_config_address(bus, dev, func, offset);
    cfg.write_reg(addr as usize, val);
}

proof fn word_offset(bus: u8, dev: u8, func: u8, offset: u8)
    ensures
        config_address(bus, dev, func, offset & 0xFC) == config_address(bus, dev, func, offset),
        offset & 2 == 0 <==> offset / 2 % 2 == 0,
{
    assert((offset & 0xFC) as u32 & 0xFC == offset as u32 & 0xFC) by (bit_vector);
    assert(offset & 2 == 0 <==> offset / 2 % 2 == 0) by (bit_vector);
}

/// Read a 16-bit register.
pub fn pci_read16<R: RegisterAccess>(cfg: &mut Traced<R>, bus: u8, dev: u8, func: u8, offset: u8) -> (val: u16)
    ensures
        final(cfg).trace() == old(cfg).trace().push(
            RegOp::Read {
                offset: at(bus, dev, func, offset),
                value: final(cfg).trace().last()->Read_value,
            },
        ),
        val == half(final(cfg).trace().last()->Read_value, offset),
{
    let word: u32 = pci_read32(cfg, bus, dev, func, offset & 0xFC);
    proof {
        word_offset(bus, dev, func, offset);
    }
    if offset & 2 == 0 {
        (word % 65536) as u16
    } else {
        (word / 65536) as u16
    }
}

/// The accesses that write a 16-bit register, in a word that was `word`.
pub open spec fn half_written(
    bus: u8,
    dev: u8,
    func: u8,
    offset: u8,
    word: u32,
    val: u16,
) -> Seq<RegOp> {
    seq![
        RegOp::Read { offset: at(bus, dev, func, offset), value: word },
        RegOp::Write { offset: at(bus, dev, func, offset), value: with_half(word, offset, val) },
    ]
}

/// Write a 16-bit register, and leave the other half of its word as it is.
pub fn pci_write16<R: RegisterAccess>(cfg: &mut Traced<R>, bus: u8, dev: u8, func: u8, offset: u8, val: u16)
    ensures
        final(cfg).trace() == old(cfg).trace() + half_written(
            bus,
            dev,
            func,
            offset,
            final(cfg).trace()[old(cfg).trace().len() as int]->Read_value,
            val,
        ),
{
    let word: u32 = pci_read32(cfg, bus, dev, func, offset & 0xFC);
    proof {
        word_offset(bus, dev, func, offset);
    }
    let new: u32 = if offset & 2 == 0 {
        word - word % 65536 + val as u32
    } else {
        word % 65536 + 65536 * (val as u32)
    };
    pci_write32(cfg, bus, dev, func, offset & 0xFC, new);
    assert(cfg.trace() =~= old(cfg).trace() + half_written(bus, dev, func, offset, word, val));
}

/// Where configuration space stores what is written to it, a 16-bit register
/// reads back as it was written; the other half of its word and every other
/// word of every device are left alone.
pub proof fn half_is_stored(
    space: spec_fn(usize) -> u32,
    bus: u8,
    dev: u8,
    func: u8,
    offset: u8,
    word: u32,
    val: u16,
)
    requires
        stored_answers(space, half_written(bus, dev, func, offset, word, val)),
    ensures
        ({
            let after = stored(space, half_written(bus, dev, func, offset, word, val));
            let it = at(bus, dev, func, offset);
            let other = offset ^ 2;
            &&& half(after(it), offset) == val
            &&& at(bus, dev, func, other) == it
            &&& half(after(it), other) == half(space(it), other)
            &&& forall|o: usize| o != it ==> #[trigger] after(o) == space(o)
            &&& forall|bus2: u8, dev2: u8, func2: u8, offset2: u8|
                dev < 32 && func < 8 && dev2 < 32 && func2 < 8 && !(bus2 == bus && dev2 == dev
                    && func2 == func && offset2 / 4 == offset / 4) ==> after(
                    #[trigger] at(bus2, dev2, func2, offset2),
                ) == space(at(bus2, dev2, func2, offset2))
        }),
{
    let ops = half_written(bus, dev, func, offset, word, val);
    let it = at(bus, dev, func, offset);
    let other = offset ^ 2;
    let after = stored(space, ops);
    reveal_with_fuel(stored, 3);
    assert(ops[0] == RegOp::Read { offset: it, value: word });
    assert(ops.take(0) =~= Seq::empty());
    assert(word == space(it));
    assert(ops.drop_last().drop_last() =~= Seq::empty());
    assert(after(it) == with_half(word, offset, val));
    assert(((offset ^ 2) as u32) & 0xFC == (offset as u32) & 0xFC && (offset ^ 2) / 2 % 2 != offset
        / 2 % 2) by (bit_vector);
    half_round_trip(word, offset, other, val);
    assert forall|bus2: u8, dev2: u8, func2: u8, offset2: u8|
        dev < 32 && func < 8 && dev2 < 32 && func2 < 8 && !(bus2 == bus && dev2 == dev && func2
            == func && offset2 / 4 == offset / 4) implies after(
        #[trigger] at(bus2, dev2, func2, offset2),
    ) == space(at(bus2, dev2, func2, offset2)) by {
        config_addresses_differ(bus, dev, func, offset, bus2, dev2, func2, offset2);
    }
}

fn read_class<R: RegisterAccess>(cfg: &mut Traced<R>, bus: u8, dev: u8, func: u8) -> (r: (u8, u8))
    ensures
        ({
            let word = final(cfg).trace().last()->Read_value;
            &&& final(cfg).trace() == old(cfg).trace().push(
                RegOp::Read { offset: at(bus, dev, func, PCI_CLASS_REV), value: word },
            )
            &&& r.0 == word / 16777216
            &&& r.1 == word / 65536 % 256
        }),
{
    let w: u32 = pci_read32(cfg, bus, dev, func, PCI_CLASS_REV);
    ((w / 16777216) as u8, (w / 65536 % 256) as u8)
}

// ── Looking for a device ────────────────────────────────────────────────

/// `id` names a device of `vendor` with one of `device_ids`.
pub open spec fn wanted(id: u32, vendor: u16, device_ids: Seq<u16>) -> bool {
    !absent(id) && (id % 65536) as u16 == vendor && device_ids.contains((id / 65536) as u16)
}

/// The accesses of a search over bus 0 and its result: the devices are asked
/// for their identification in turn; the first that is wanted is described
/// by its class word, and the search ends.
pub open spec fn searched(
    ops: Seq<RegOp>,
    vendor: u16,
    device_ids: Seq<u16>,
    found: Option<PciDevice>,
) -> bool {
    let asked = |n: int|
        forall|i: int|
            0 <= i < n ==> (#[trigger] ops[i]) is Read && ops[i]->Read_offset == at(
                0,
                i as u8,
                0,
                0,
            );
    let passed = |n: int|
        forall|i: int|
            0 <= i < n ==> !wanted((#[trigger] ops[i])->Read_value, vendor, device_ids);
    match found {
        None => ops.len() == 32 && asked(32) && passed(32),
        Some(d) => {
            &&& d.dev < 32
            &&& ops.len() == d.dev + 2
            &&& asked(d.dev + 1)
            &&& passed(d.dev as int)
            &&& wanted(ops[d.dev as int]->Read_value, vendor, device_ids)
            &&& ops[d.dev + 1] is Read
            &&& ops[d.dev + 1]->Read_offset == at(0, d.dev, 0, PCI_CLASS_REV)
            &&& d == described(
                0,
                d.dev,
                0,
                ops[d.dev as int]->Read_value,
                ops[d.dev + 1]->Read_value,
            )
        },
    }
}

fn contains(ids: &[u16], id: u16) -> (r: bool)
    ensures
        r == ids@.contains(id),
{
    let n: usize = ids.len();
    let mut i: usize = 0;
    while i < n
        invariant
            i <= n,
            n == ids@.len(),
            forall|j: int| 0 <= j < i ==> ids@[j] != id,
        decreases n - i,
    {
        if ids[i] == id {
            return true;
        }
        i += 1;
    }
    false
}

impl PciBus {
    /// Find a PCI device by vendor and device ID on bus 0.
    pub fn find_device<R: RegisterAccess>(&self, cfg: &mut Traced<R>, vendor: u16, device_id: u16) -> (r:
        Option<PciDevice>)
        ensures
            extends(old(cfg).trace(), final(cfg).trace()),
            searched(since(old(cfg).trace(), final(cfg).trace()), vendor, seq![device_id], r),
    {
        let ids: [u16; 1] = [device_id];
        assert(ids@ =~= seq![device_id]);
        self.find_device_any(cfg, vendor, &ids)
    }

    /// Find a PCI device matching any of the given device IDs.
    pub fn find_device_any<R: RegisterAccess>(
        &self,
        cfg: &mut Traced<R>,
        vendor: u16,
        device_ids: &[u16],
    ) -> (r: Option<PciDevice>)
        ensures
            extends(old(cfg).trace(), final(cfg).trace()),
            searched(since(old(cfg).trace(), final(cfg).trace()), vendor, device_ids@, r),
    {
        let ghost before = cfg.trace();
        let mut dev: u8 = 0;
        while dev < 32
            invariant
                dev <= 32,
                before == old(cfg).trace(),
                extends(before, cfg.trace()),
                cfg.trace().len() == before.len() + dev,
                forall|i: int|
                    0 <= i < dev ==> (#[trigger] since(before, cfg.trace())[i]) is Read && since(
                        before,
                        cfg.trace(),
                    )[i]->Read_offset == at(0, i as u8, 0, 0) && !wanted(
                        since(before, cfg.trace())[i]->Read_value,
                        vendor,
                        device_ids@,
                    ),
            decreases 32 - dev,
        {
            let ghost prior = since(before, cfg.trace());
            let id: u32 = pci_read32(cfg, 0, dev, 0, 0);
            let ghost ops = since(before, cfg.trace());
            assert(ops =~= prior.push(RegOp::Read { offset: at(0, dev, 0, 0), value: id }));
            assert(extends(before, cfg.trace()));
            if id != 0xFFFF_FFFF {
                let v: u16 = (id % 65536) as u16;
                let d: u16 = (id / 65536) as u16;
                if v == vendor && contains(device_ids, d) {
                    let (class, subclass) = read_class(cfg, 0, dev, 0);
                    proof {
                        assert(since(before, cfg.trace()) =~= ops.push(cfg.trace().last()));
                        assert(extends(before, cfg.trace()));
                    }
                    return Some(
                        PciDevice { bus: 0, dev, func: 0, vendor: v, device: d, class, subclass },
                    );
                }
            }
            dev += 1;
        }
        None
    }
}

/// What a search says of configuration space: the device found is the lowest
/// of bus 0 that is wanted, described as its registers describe it, and
/// nothing is found only where no device is wanted.
pub proof fn lowest_device_found(
    ops: Seq<RegOp>,
    space: spec_fn(usize) -> u32,
    vendor: u16,
    device_ids: Seq<u16>,
    found: Option<PciDevice>,
)
    requires
        searched(ops, vendor, device_ids, found),
        answered_by(ops, space),
    ensures
        match found {
            Some(d) => {
                &&& d.dev < 32
                &&& wanted(space(at(0, d.dev, 0, 0)), vendor, device_ids)
                &&& d == present_at(space, d.dev, 0)
                &&& d.vendor == vendor
                &&& device_ids.contains(d.device)
                &&& forall|dev: u8|
                    dev < d.dev ==> !wanted(space(#[trigger] at(0, dev, 0, 0)), vendor, device_ids)
            },
            None => forall|dev: u8|
                dev < 32 ==> !wanted(space(#[trigger] at(0, dev, 0, 0)), vendor, device_ids),
        },
{
    match found {
        Some(d) => {
            assert(ops[d.dev as int] is Read);
            assert(ops[d.dev + 1] is Read);
            assert forall|dev: u8| dev < d.dev implies !wanted(
                space(#[trigger] at(0, dev, 0, 0)),
                vendor,
                device_ids,
            ) by {
                assert(ops[dev as int] is Read);
            }
        },
        None => {
            assert forall|dev: u8| dev < 32 implies !wanted(
                space(#[trigger] at(0, dev, 0, 0)),
                vendor,
                device_ids,
            ) by {
                assert(ops[dev as int] is Read);
            }
        },
    }
}

// ── Enumeration ─────────────────────────────────────────────────────────

/// The read of a register of bus 0 that gives what `space` holds.
pub open spec fn reading(space: spec_fn(usize) -> u32, dev: u8, func: u8, offset: u8) -> RegOp {
    RegOp::Read { offset: at(0, dev, func, offset), value: space(at(0, dev, func, offset)) }
}

/// The device that `space` has at a place of bus 0.
pub open spec fn present_at(space: spec_fn(usize) -> u32, dev: u8, func: u8) -> PciDevice {
    described(
        0,
        dev,
        func,
        space(at(0, dev, func, 0)),
        space(at(0, dev, func, PCI_CLASS_REV)),
    )
}

/// Whether `space` has no device at a place of bus 0.
pub open spec fn absent_at(space: spec_fn(usize) -> u32, dev: u8, func: u8) -> bool {
    absent(space(at(0, dev, func, 0)))
}

/// Whether a device has more functions than one: bit 7 of its header type.
pub open spec fn multi_function(space: spec_fn(usize) -> u32, dev: u8) -> bool {
    space(at(0, dev, 0, PCI_HEADER_TYPE)) / 0x80_0000 % 2 == 1
}

/// Functions 1 to `n - 1` of a device, as far as they are there.
pub open spec fn further_functions(space: spec_fn(usize) -> u32, dev: u8, n: nat) -> Seq<PciDevice>
    decreases n,
{
    if n <= 1 {
        Seq::empty()
    } else {
        let func = (n - 1) as u8;
        let before = further_functions(space, dev, (n - 1) as nat);
        if absent_at(space, dev, func) {
            before
        } else {
            before.push(present_at(space, dev, func))
        }
    }
}

/// Every function of a device.
pub open spec fn functions(space: spec_fn(usize) -> u32, dev: u8) -> Seq<PciDevice> {
    if absent_at(space, dev, 0) {
        Seq::empty()
    } else if multi_function(space, dev) {
        seq![present_at(space, dev, 0)] + further_functions(space, dev, 8)
    } else {
        seq![present_at(space, dev, 0)]
    }
}

/// Every function of devices 0 to `n - 1` of bus 0.
pub open spec fn devices(space: spec_fn(usize) -> u32, n: nat) -> Seq<PciDevice>
    decreases n,
{
    if n == 0 {
        Seq::empty()
    } else {
        devices(space, (n - 1) as nat) + functions(space, (n - 1) as u8)
    }
}

/// The reads that find functions 1 to `n - 1` of a device.
pub open spec fn further_reads(space: spec_fn(usize) -> u32, dev: u8, n: nat) -> Seq<RegOp>
    decreases n,
{
    if n <= 1 {
        Seq::empty()
    } else {
        let func = (n - 1) as u8;
        let before = further_reads(space, dev, (n - 1) as nat).push(reading(space, dev, func, 0));
        if absent_at(space, dev, func) {
            before
        } else {
            before.push(reading(space, dev, func, PCI_CLASS_REV))
        }
    }
}

/// The reads that find every function of a device.
pub open spec fn function_reads(space: spec_fn(usize) -> u32, dev: u8) -> Seq<RegOp> {
    let first = seq![reading(space, dev, 0, 0)];
    let known = first.push(reading(space, dev, 0, PCI_CLASS_REV)).push(
        reading(space, dev, 0, PCI_HEADER_TYPE),
    );
    if absent_at(space, dev, 0) {
        first
    } else if multi_function(space, dev) {
        known + further_reads(space, dev, 8)
    } else {
        known
    }
}

/// The reads that find every function of devices 0 to `n - 1` of bus 0.
pub open spec fn device_reads(space: spec_fn(usize) -> u32, n: nat) -> Seq<RegOp>
    decreases n,
{
    if n == 0 {
        Seq::empty()
    } else {
        device_reads(space, (n - 1) as nat) + function_reads(space, (n - 1) as u8)
    }
}

/// Whether enumeration reaches a place of bus 0 and finds a device there.
pub open spec fn reachable(space: spec_fn(usize) -> u32, dev: u8, func: u8) -> bool {
    &&& dev < 32
    &&& func < 8
    &&& !absent_at(space, dev, func)
    &&& func > 0 ==> !absent_at(space, dev, 0) && multi_function(space, dev)
}

/// Whether one place of a bus comes before another.
pub open spec fn comes_before(a: PciDevice, b: PciDevice) -> bool {
    a.dev < b.dev || (a.dev == b.dev && a.func < b.func)
}

proof fn further_functions_listed(space: spec_fn(usize) -> u32, dev: u8, n: nat)
    requires
        n <= 8,
    ensures
        ({
            let s = further_functions(space, dev, n);
            &&& forall|i: int|
                0 <= i < s.len() ==> {
                    &&& 1 <= (#[trigger] s[i]).func < n
                    &&& !absent_at(space, dev, s[i].func)
                    &&& s[i] == present_at(space, dev, s[i].func)
                }
            &&& forall|i: int, j: int| 0 <= i < j < s.len() ==> comes_before(s[i], s[j])
            &&& forall|func: u8|
                1 <= func < n && !absent_at(space, dev, func) ==> s.contains(
                    #[trigger] present_at(space, dev, func),
                )
        }),
    decreases n,
{
    if n > 1 {
        let func = (n - 1) as u8;
        let prior = further_functions(space, dev, (n - 1) as nat);
        let s = further_functions(space, dev, n);
        further_functions_listed(space, dev, (n - 1) as nat);
        if !absent_at(space, dev, func) {
            assert(s == prior.push(present_at(space, dev, func)));
            assert(s[prior.len() as int] == present_at(space, dev, func));
            assert forall|f: u8| 1 <= f < n && !absent_at(space, dev, f) implies s.contains(
                #[trigger] present_at(space, dev, f),
            ) by {
                if f < func {
                    let i = prior.index_of(present_at(space, dev, f));
                    assert(prior.contains(present_at(space, dev, f)));
                    assert(s[i] == present_at(space, dev, f));
                }
            }
        }
    }
}

proof fn functions_listed(space: spec_fn(usize) -> u32, dev: u8)
    requires
        dev < 32,
    ensures
        ({
            let s = functions(space, dev);
            &&& forall|i: int|
                0 <= i < s.len() ==> {
                    &&& (#[trigger] s[i]).dev == dev
                    &&& reachable(space, dev, s[i].func)
                    &&& s[i] == present_at(space, dev, s[i].func)
                }
            &&& forall|i: int, j: int| 0 <= i < j < s.len() ==> comes_before(s[i], s[j])
            &&& forall|func: u8|
                reachable(space, dev, func) ==> s.contains(#[trigger] present_at(space, dev, func))
        }),
{
    let s = functions(space, dev);
    let more = further_functions(space, dev, 8);
    further_functions_listed(space, dev, 8);
    if !absent_at(space, dev, 0) {
        assert(s[0] == present_at(space, dev, 0));
        if multi_function(space, dev) {
            assert forall|i: int| 1 <= i < s.len() implies s[i] == more[i - 1] by {}
            assert forall|func: u8| reachable(space, dev, func) implies s.contains(
                #[trigger] present_at(space, dev, func),
            ) by {
                if func > 0 {
                    assert(more.contains(present_at(space, dev, func)));
                    let i = more.index_of(present_at(space, dev, func));
                    assert(s[i + 1] == present_at(space, dev, func));
                }
            }
        }
    }
}

proof fn devices_listed(space: spec_fn(usize) -> u32, n: nat)
    requires
        n <= 32,
    ensures
        ({
            let s = devices(space, n);
            &&& forall|i: int|
                0 <= i < s.len() ==> {
                    &&& (#[trigger] s[i]).dev < n
                    &&& reachable(space, s[i].dev, s[i].func)
                    &&& s[i] == present_at(space, s[i].dev, s[i].func)
                }
            &&& forall|i: int, j: int| 0 <= i < j < s.len() ==> comes_before(s[i], s[j])
            &&& forall|dev: u8, func: u8|
                dev < n && reachable(space, dev, func) ==> s.contains(
                    #[trigger] present_at(space, dev, func),
                )
        }),
    decreases n,
{
    if n > 0 {
        let last = (n - 1) as u8;
        let prior = devices(space, (n - 1) as nat);
        let more = functions(space, last);
        let s = devices(space, n);
        devices_listed(space, (n - 1) as nat);
        functions_listed(space, last);
        assert(s == prior + more);
        assert forall|i: int| 0 <= i < s.len() implies s[i] == if i < prior.len() {
            prior[i]
        } else {
            more[i - prior.len()]
        } by {}
        assert forall|dev: u8, func: u8| dev < n && reachable(space, dev, func) implies s.contains(
            #[trigger] present_at(space, dev, func),
        ) by {
            let d = present_at(space, dev, func);
            if dev < last {
                assert(prior.contains(d));
                assert(s[prior.index_of(d)] == d);
            } else {
                assert(more.contains(d));
                assert(s[prior.len() + more.index_of(d)] == d);
            }
        }
    }
}

/// Enumeration lists every device that it can reach, described as its
/// registers describe it, and nothing else; in the order of their places, and
/// so none twice.
pub proof fn enumeration_is_complete(space: spec_fn(usize) -> u32)
    ensures
        forall|dev: u8, func: u8|
            reachable(space, dev, func) ==> devices(space, 32).contains(
                #[trigger] present_at(space, dev, func),
            ),
        forall|i: int|
            0 <= i < devices(space, 32).len() ==> {
                let d = #[trigger] devices(space, 32)[i];
                reachable(space, d.dev, d.func) && d == present_at(space, d.dev, d.func)
            },
        forall|i: int, j: int|
            0 <= i < j < devices(space, 32).len() ==> comes_before(
                devices(space, 32)[i],
                devices(space, 32)[j],
            ),
{
    devices_listed(space, 32);
}

/// Reads in ascending order of address, from `low` on and below `high`.
spec fn ascending(ops: Seq<RegOp>, low: int, high: int) -> bool {
    &&& forall|i: int|
        0 <= i < ops.len() ==> (#[trigger] ops[i]) is Read && low <= ops[i]->Read_offset < high
    &&& forall|i: int, j: int|
        0 <= i < j < ops.len() ==> (#[trigger] ops[i])->Read_offset < (#[trigger] ops[j])->Read_offset
}

/// Where the registers of a function of bus 0 begin.
spec fn base(dev: int, func: int) -> int {
    0x8000_0000 + dev * 2048 + func * 256
}

proof fn ascending_concat(a: Seq<RegOp>, b: Seq<RegOp>, low: int, mid: int, high: int)
    requires
        ascending(a, low, mid),
        ascending(b, mid, high),
        low <= mid <= high,
    ensures
        ascending(a + b, low, high),
{
    let all = a + b;
    assert forall|i: int| 0 <= i < all.len() implies (#[trigger] all[i]) is Read && low
        <= all[i]->Read_offset < high by {
        if i < a.len() {
            assert(all[i] == a[i]);
        } else {
            assert(all[i] == b[i - a.len()]);
        }
    }
    assert forall|i: int, j: int| 0 <= i < j < all.len() implies (#[trigger] all[i])->Read_offset
        < (#[trigger] all[j])->Read_offset by {
        if j < a.len() {
            assert(all[i] == a[i] && all[j] == a[j]);
        } else if i < a.len() {
            assert(all[i] == a[i] && all[j] == b[j - a.len()]);
        } else {
            assert(all[i] == b[i - a.len()] && all[j] == b[j - a.len()]);
        }
    }
}

proof fn answered_concat(a: Seq<RegOp>, b: Seq<RegOp>, space: spec_fn(usize) -> u32)
    requires
        answered_by(a + b, space),
    ensures
        answered_by(a, space),
        answered_by(b, space),
{
    assert forall|i: int| 0 <= i < a.len() implies (#[trigger] a[i] matches RegOp::Read {
        offset,
        value,
    } ==> value == space(offset)) by {
        assert((a + b)[i] == a[i]);
    }
    assert forall|i: int| 0 <= i < b.len() implies (#[trigger] b[i] matches RegOp::Read {
        offset,
        value,
    } ==> value == space(offset)) by {
        assert((a + b)[a.len() + i] == b[i]);
    }
}

/// What enabling bus mastering does: bits 0 to 2 of the command register (I/O
/// space, memory space, bus master) are set, the others stay as they read.
pub open spec fn bus_mastered(ops: Seq<RegOp>, dev: PciDevice, readback: u16) -> bool {
    let command = at(dev.bus, dev.dev, dev.func, PCI_COMMAND);
    &&& ops.len() == 4
    &&& ops[0] is Read && ops[0]->Read_offset == command
    &&& ops[1] is Read && ops[1]->Read_offset == command
    &&& ops[2] == RegOp::Write {
        offset: command,
        value: with_half(
            ops[1]->Read_value,
            PCI_COMMAND,
            half(ops[0]->Read_value, PCI_COMMAND) | 0x07,
        ),
    }
    &&& ops[3] is Read && ops[3]->Read_offset == command
    &&& readback == half(ops[3]->Read_value, PCI_COMMAND)
}

/// What reading a BAR does and gives. A 64-bit BAR (type 2) has its upper half
/// in the next register; the low four bits are flags and no part of the
/// address.
pub open spec fn bar_read(ops: Seq<RegOp>, dev: PciDevice, bar: u8, addr: u64) -> bool {
    let raw = ops[0]->Read_value;
    &&& ops.len() >= 1
    &&& ops[0] is Read
    &&& ops[0]->Read_offset == at(dev.bus, dev.dev, dev.func, (0x10 + bar * 4) as u8)
    &&& if raw / 2 % 4 == 2 {
        &&& ops.len() == 2
        &&& ops[1] is Read
        &&& ops[1]->Read_offset == at(dev.bus, dev.dev, dev.func, (0x14 + bar * 4) as u8)
        &&& addr == 0x1_0000_0000 * ops[1]->Read_value + (raw - raw % 16)
    } else {
        &&& ops.len() == 1
        &&& addr == raw - raw % 16
    }
}

/// Describes the device behind `id` and puts it at the end of `out`.
fn push_dev<R: RegisterAccess>(
    out: &mut Vec<PciDevice>,
    cfg: &mut Traced<R>,
    bus: u8,
    dev: u8,
    func: u8,
    id: u32,
)
    ensures
        ({
            let word = final(cfg).trace().last()->Read_value;
            &&& final(cfg).trace() == old(cfg).trace().push(
                RegOp::Read { offset: at(bus, dev, func, PCI_CLASS_REV), value: word },
            )
            &&& final(out)@ == old(out)@.push(described(bus, dev, func, id, word))
        }),
{
    let (class, subclass) = read_class(cfg, bus, dev, func);
    out.push(
        PciDevice {
            bus,
            dev,
            func,
            vendor: (id % 65536) as u16,
            device: (id / 65536) as u16,
            class,
            subclass,
        },
    );
}

/// Looks for one further function of a device and puts it at the end of
/// `out`.
fn push_function<R: RegisterAccess>(out: &mut Vec<PciDevice>, cfg: &mut Traced<R>, dev: u8, func: u8)
    requires
        dev < 32,
        func < 8,
    ensures
        extends(old(cfg).trace(), final(cfg).trace()),
        ascending(
            since(old(cfg).trace(), final(cfg).trace()),
            base(dev as int, func as int),
            base(dev as int, func + 1),
        ),
        forall|space: spec_fn(usize) -> u32| #[trigger]
            answered_by(since(old(cfg).trace(), final(cfg).trace()), space) ==> {
                &&& since(old(cfg).trace(), final(cfg).trace()) == if absent_at(space, dev, func) {
                    seq![reading(space, dev, func, 0)]
                } else {
                    seq![reading(space, dev, func, 0), reading(space, dev, func, PCI_CLASS_REV)]
                }
                &&& final(out)@ == if absent_at(space, dev, func) {
                    old(out)@
                } else {
                    old(out)@.push(present_at(space, dev, func))
                }
            },
{
    let id: u32 = pci_read32(cfg, 0, dev, func, 0);
    proof {
        config_address_parts(0, dev, func, 0);
        config_address_parts(0, dev, func, PCI_CLASS_REV);
    }
    let ghost first = RegOp::Read { offset: at(0, dev, func, 0), value: id };
    if id == 0xFFFF_FFFF {
        let ghost ops = since(old(cfg).trace(), cfg.trace());
        proof {
            assert(ops =~= seq![first]);
            assert forall|space: spec_fn(usize) -> u32| #[trigger]
                answered_by(ops, space) implies absent_at(space, dev, func) && ops == seq![
                reading(space, dev, func, 0),
            ] by {
                assert(ops[0] is Read);
            }
        }
        return ;
    }
    push_dev(out, cfg, 0, dev, func, id);
    let ghost ops = since(old(cfg).trace(), cfg.trace());
    proof {
        assert(ops =~= seq![first, cfg.trace().last()]);
        assert forall|space: spec_fn(usize) -> u32| #[trigger]
            answered_by(ops, space) implies !absent_at(space, dev, func) && ops == seq![
            reading(space, dev, func, 0),
            reading(space, dev, func, PCI_CLASS_REV),
        ] && out@ == old(out)@.push(present_at(space, dev, func)) by {
            assert(ops[0] is Read);
            assert(ops[1] is Read);
        }
    }
}

/// Looks for functions 1 to 7 of a device and puts them at the end of `out`.
fn push_functions<R: RegisterAccess>(out: &mut Vec<PciDevice>, cfg: &mut Traced<R>, dev: u8)
    requires
        dev < 32,
    ensures
        extends(old(cfg).trace(), final(cfg).trace()),
        ascending(
            since(old(cfg).trace(), final(cfg).trace()),
            base(dev as int, 1),
            base(dev as int, 8),
        ),
        forall|space: spec_fn(usize) -> u32| #[trigger]
            answered_by(since(old(cfg).trace(), final(cfg).trace()), space) ==> {
                &&& since(old(cfg).trace(), final(cfg).trace()) == further_reads(space, dev, 8)
                &&& final(out)@ == old(out)@ + further_functions(space, dev, 8)
            },
{
    let ghost before = cfg.trace();
    let mut func: u8 = 1;
    proof {
        assert(since(before, before) =~= Seq::<RegOp>::empty());
        assert(out@ =~= old(out)@ + Seq::<PciDevice>::empty());
    }
    while func < 8
        invariant
            1 <= func <= 8,
            dev < 32,
            before == old(cfg).trace(),
            extends(before, cfg.trace()),
            ascending(since(before, cfg.trace()), base(dev as int, 1), base(dev as int, func as int)),
            forall|space: spec_fn(usize) -> u32| #[trigger]
                answered_by(since(before, cfg.trace()), space) ==> {
                    &&& since(before, cfg.trace()) == further_reads(space, dev, func as nat)
                    &&& out@ == old(out)@ + further_functions(space, dev, func as nat)
                },
        decreases 8 - func,
    {
        let ghost middle = cfg.trace();
        let ghost had = out@;
        push_function(out, cfg, dev, func);
        proof {
            since_concat(before, middle, cfg.trace());
            ascending_concat(
                since(before, middle),
                since(middle, cfg.trace()),
                base(dev as int, 1),
                base(dev as int, func as int),
                base(dev as int, func + 1),
            );
            assert forall|space: spec_fn(usize) -> u32| #[trigger]
                answered_by(since(before, cfg.trace()), space) implies {
                &&& since(before, cfg.trace()) == further_reads(space, dev, (func + 1) as nat)
                &&& out@ == old(out)@ + further_functions(space, dev, (func + 1) as nat)
            } by {
                answered_concat(since(before, middle), since(middle, cfg.trace()), space);
                assert(since(before, cfg.trace()) =~= further_reads(space, dev, (func + 1) as nat));
                assert(out@ =~= old(out)@ + further_functions(space, dev, (func + 1) as nat));
            }
        }
        func += 1;
    }
}

/// Looks for every function of a device and puts them at the end of `out`.
fn push_device<R: RegisterAccess>(out: &mut Vec<PciDevice>, cfg: &mut Traced<R>, dev: u8)
    requires
        dev < 32,
    ensures
        extends(old(cfg).trace(), final(cfg).trace()),
        ascending(
            since(old(cfg).trace(), final(cfg).trace()),
            base(dev as int, 0),
            base(dev + 1, 0),
        ),
        forall|space: spec_fn(usize) -> u32| #[trigger]
            answered_by(since(old(cfg).trace(), final(cfg).trace()), space) ==> {
                &&& since(old(cfg).trace(), final(cfg).trace()) == function_reads(space, dev)
                &&& final(out)@ == old(out)@ + functions(space, dev)
            },
{
    let ghost before = cfg.trace();
    let id: u32 = pci_read32(cfg, 0, dev, 0, 0);
    proof {
        config_address_parts(0, dev, 0, 0);
        config_address_parts(0, dev, 0, PCI_CLASS_REV);
        config_address_parts(0, dev, 0, PCI_HEADER_TYPE);
        word_offset(0, dev, 0, PCI_HEADER_TYPE);
    }
    let ghost first = cfg.trace().last();
    if id == 0xFFFF_FFFF {
        let ghost ops = since(before, cfg.trace());
        proof {
            assert(ops =~= seq![first]);
            assert forall|space: spec_fn(usize) -> u32| #[trigger]
                answered_by(ops, space) implies ops == function_reads(space, dev) && out@ == old(
                out,
            )@ + functions(space, dev) by {
                assert(ops[0] is Read);
                assert(ops =~= function_reads(space, dev));
                assert(out@ =~= old(out)@ + functions(space, dev));
            }
        }
        return ;
    }
    push_dev(out, cfg, 0, dev, 0, id);
    let ghost class = cfg.trace().last();
    let word: u32 = pci_read32(cfg, 0, dev, 0, PCI_HEADER_TYPE & 0xFC);
    let ghost header = cfg.trace().last();
    let ghost middle = cfg.trace();
    let ghost known = seq![first, class, header];
    let ghost had = out@;
    proof {
        assert(since(before, middle) =~= known);
        assert(extends(before, middle));
        assert(ascending(known, base(dev as int, 0), base(dev as int, 1)));
        assert forall|space: spec_fn(usize) -> u32| #[trigger]
            answered_by(known, space) implies {
            &&& !absent_at(space, dev, 0)
            &&& known == seq![
                reading(space, dev, 0, 0),
                reading(space, dev, 0, PCI_CLASS_REV),
                reading(space, dev, 0, PCI_HEADER_TYPE),
            ]
            &&& had == old(out)@.push(present_at(space, dev, 0))
            &&& multi_function(space, dev) == (word / 0x80_0000 % 2 == 1)
        } by {
            assert(known[0] is Read);
            assert(known[1] is Read);
            assert(known[2] is Read);
        }
    }
    if word / 0x80_0000 % 2 == 1 {
        push_functions(out, cfg, dev);
        proof {
            since_concat(before, middle, cfg.trace());
            ascending_concat(
                known,
                since(middle, cfg.trace()),
                base(dev as int, 0),
                base(dev as int, 1),
                base(dev + 1, 0),
            );
            assert forall|space: spec_fn(usize) -> u32| #[trigger]
                answered_by(since(before, cfg.trace()), space) implies {
                &&& since(before, cfg.trace()) == function_reads(space, dev)
                &&& out@ == old(out)@ + functions(space, dev)
            } by {
                answered_concat(known, since(middle, cfg.trace()), space);
                assert(since(before, cfg.trace()) =~= function_reads(space, dev));
                assert(out@ =~= old(out)@ + functions(space, dev));
            }
        }
    } else {
        proof {
            assert forall|space: spec_fn(usize) -> u32| #[trigger]
                answered_by(since(before, cfg.trace()), space) implies {
                &&& since(before, cfg.trace()) == function_reads(space, dev)
                &&& out@ == old(out)@ + functions(space, dev)
            } by {
                assert(since(before, cfg.trace()) =~= function_reads(space, dev));
                assert(out@ =~= old(out)@ + functions(space, dev));
            }
        }
    }
}

impl PciBus {
    /// Enumerate every PCI device reachable from bus 0.
    ///
    /// Walks bus 0 device 0..32, descending into functions 1..8 only on
    /// multi-function devices (header-type bit 7). Bus-to-bus bridge
    /// traversal is not yet supported: enough for QEMU q35/pc and Hyper-V
    /// Gen1, which both keep all endpoint NICs on bus 0.
    pub fn enumerate<R: RegisterAccess>(&self, cfg: &mut Traced<R>) -> (out: Vec<PciDevice>)
        ensures
            extends(old(cfg).trace(), final(cfg).trace()),
            reads_once(since(old(cfg).trace(), final(cfg).trace())),
            forall|space: spec_fn(usize) -> u32| #[trigger]
                answered_by(since(old(cfg).trace(), final(cfg).trace()), space) ==> {
                    &&& since(old(cfg).trace(), final(cfg).trace()) == device_reads(space, 32)
                    &&& out@ == devices(space, 32)
                },
    {
        let mut out: Vec<PciDevice> = Vec::new();
        let ghost before = cfg.trace();
        let mut dev: u8 = 0;
        proof {
            assert(since(before, before) =~= Seq::<RegOp>::empty());
        }
        while dev < 32
            invariant
                dev <= 32,
                before == old(cfg).trace(),
                extends(before, cfg.trace()),
                ascending(since(before, cfg.trace()), base(0, 0), base(dev as int, 0)),
                forall|space: spec_fn(usize) -> u32| #[trigger]
                    answered_by(since(before, cfg.trace()), space) ==> {
                        &&& since(before, cfg.trace()) == device_reads(space, dev as nat)
                        &&& out@ == devices(space, dev as nat)
                    },
            decreases 32 - dev,
        {
            let ghost middle = cfg.trace();
            push_device(&mut out, cfg, dev);
            proof {
                since_concat(before, middle, cfg.trace());
                ascending_concat(
                    since(before, middle),
                    since(middle, cfg.trace()),
                    base(0, 0),
                    base(dev as int, 0),
                    base(dev + 1, 0),
                );
                assert forall|space: spec_fn(usize) -> u32| #[trigger]
                    answered_by(since(before, cfg.trace()), space) implies {
                    &&& since(before, cfg.trace()) == device_reads(space, (dev + 1) as nat)
                    &&& out@ == devices(space, (dev + 1) as nat)
                } by {
                    answered_concat(since(before, middle), since(middle, cfg.trace()), space);
                }
            }
            dev += 1;
        }
        out
    }

    /// Enable PCI bus mastering, memory space, and I/O space for a device.
    ///
    /// Returns the command register as it reads afterwards.
    pub fn enable_bus_mastering<R: RegisterAccess>(&self, cfg: &mut Traced<R>, dev: &PciDevice) -> (readback:
        u16)
        ensures
            extends(old(cfg).trace(), final(cfg).trace()),
            bus_mastered(since(old(cfg).trace(), final(cfg).trace()), *dev, readback),
    {
        let cmd: u16 = pci_read16(cfg, dev.bus, dev.dev, dev.func, PCI_COMMAND);
        pci_write16(cfg, dev.bus, dev.dev, dev.func, PCI_COMMAND, cmd | 0x07);
        pci_read16(cfg, dev.bus, dev.dev, dev.func, PCI_COMMAND)
    }

    /// Read a BAR (Base Address Register) value for a device.
    pub fn read_bar<R: RegisterAccess>(&self, cfg: &mut Traced<R>, dev: &PciDevice, bar: u8) -> (addr: u64)
        requires
            bar <= 58,
        ensures
            extends(old(cfg).trace(), final(cfg).trace()),
            bar_read(since(old(cfg).trace(), final(cfg).trace()), *dev, bar, addr),
    {
        let offset: u8 = 0x10 + bar * 4;
        let raw: u32 = pci_read32(cfg, dev.bus, dev.dev, dev.func, offset);
        let low: u32 = raw - raw % 16;
        if raw / 2 % 4 == 2 {
            let upper: u32 = pci_read32(cfg, dev.bus, dev.dev, dev.func, offset + 4);
            0x1_0000_0000 * (upper as u64) + low as u64
        } else {
            low as u64
        }
    }

    /// Read a 32-bit PCI configuration register.
    pub fn read_config<R: RegisterAccess>(&self, cfg: &mut Traced<R>, dev: &PciDevice, offset: u8) -> (val:
        u32)
        ensures
            final(cfg).trace() == old(cfg).trace().push(
                RegOp::Read { offset: at(dev.bus, dev.dev, dev.func, offset), value: val },
            ),
    {
        pci_read32(cfg, dev.bus, dev.dev, dev.func, offset)
    }

    /// Write a 32-bit PCI configuration register.
    pub fn write_config<R: RegisterAccess>(
        &self,
        cfg: &mut Traced<R>,
        dev: &PciDevice,
        offset: u8,
        val: u32,
    )
        ensures
            final(cfg).trace() == old(cfg).trace().push(
                RegOp::Write { offset: at(dev.bus, dev.dev, dev.func, offset), value: val },
            ),
    {
        pci_write32(cfg, dev.bus, dev.dev, dev.func, offset, val);
    }
}

// ── What the operations come to ─────────────────────────────────────────

/// The word at `offset` of a function of bus 0.
pub open spec fn word_of(space: spec_fn(usize) -> u32, dev: int, func: int, offset: int) -> u32 {
    space((0x8000_0000 + dev * 2048 + func * 256 + offset) as usize)
}

proof fn word_lies_there(space: spec_fn(usize) -> u32, dev: u8, func: u8)
    requires
        dev < 32,
        func < 8,
    ensures
        space(at(0, dev, func, 0)) == word_of(space, dev as int, func as int, 0),
        space(at(0, dev, func, 4)) == word_of(space, dev as int, func as int, 4),
        space(at(0, dev, func, 8)) == word_of(space, dev as int, func as int, 8),
        space(at(0, dev, func, 14)) == word_of(space, dev as int, func as int, 12),
{
    config_address_parts(0, dev, func, 0);
    config_address_parts(0, dev, func, 4);
    config_address_parts(0, dev, func, 8);
    config_address_parts(0, dev, func, 14);
}

/// Where a word of configuration space lies, for every place that a bus has.
pub proof fn words_lie_there(bus: u8, dev: u8, func: u8, offset: u8, addr: u32)
    requires
        dev < 32,
        func < 8,
    ensures
        at(bus, dev, func, offset) == 0x8000_0000 + bus * 0x1_0000 + dev * 0x800 + func * 0x100
            + offset - offset % 4,
        call_ensures(pci_config_address, (bus, dev, func, offset), addr) ==> addr == 0x8000_0000
            + bus * 0x1_0000 + dev * 0x800 + func * 0x100 + offset - offset % 4,
{
    config_address_parts(bus, dev, func, offset);
}

/// A word is made of its two halves, and each is found by its own offset.
pub proof fn halves_make_the_word(word: u32, low: u8, high: u8)
    requires
        low % 4 < 2,
        high % 4 >= 2,
    ensures
        half(word, low) + 0x1_0000 * half(word, high) == word,
        forall|val: u16|
            {
                &&& #[trigger] with_half(word, low, val) == val + 0x1_0000 * half(word, high)
                &&& with_half(word, high, val) == half(word, low) + 0x1_0000 * val
            },
{
}

/// One register is read or written where it lies, once, and what is handed over
/// is what is read or written.
pub proof fn registers_are_reached<R: RegisterAccess>(
    bus: u8,
    dev: u8,
    func: u8,
    offset: u8,
    val: u32,
    short: u16,
)
    requires
        dev < 32,
        func < 8,
    ensures
        forall|cfg: &mut Traced<R>| #[trigger]
            call_ensures(pci_read32::<R>, (cfg, bus, dev, func, offset), val)
                ==> (*final(cfg)).trace() == (*cfg).trace().push(
                RegOp::Read {
                    offset: (0x8000_0000 + bus * 0x1_0000 + dev * 0x800 + func * 0x100 + offset
                        - offset % 4) as usize,
                    value: val,
                },
            ),
        forall|cfg: &mut Traced<R>| #[trigger]
            call_ensures(pci_write32::<R>, (cfg, bus, dev, func, offset, val), ())
                ==> (*final(cfg)).trace() == (*cfg).trace().push(
                RegOp::Write {
                    offset: (0x8000_0000 + bus * 0x1_0000 + dev * 0x800 + func * 0x100 + offset
                        - offset % 4) as usize,
                    value: val,
                },
            ),
        forall|cfg: &mut Traced<R>| #[trigger]
            call_ensures(pci_read16::<R>, (cfg, bus, dev, func, offset), short) ==> {
                let word = (*final(cfg)).trace().last()->Read_value;
                &&& (*final(cfg)).trace() == (*cfg).trace().push(
                    RegOp::Read {
                        offset: (0x8000_0000 + bus * 0x1_0000 + dev * 0x800 + func * 0x100 + offset
                            - offset % 4) as usize,
                        value: word,
                    },
                )
                &&& short == if offset % 4 < 2 {
                    word % 0x1_0000
                } else {
                    word / 0x1_0000
                }
            },
{
    config_address_parts(bus, dev, func, offset);
}

/// The same through the bus: a device's register is read or written where it
/// lies.
pub proof fn device_registers_are_reached<R: RegisterAccess>(
    bus: &PciBus,
    dev: &PciDevice,
    offset: u8,
    val: u32,
)
    requires
        dev.dev < 32,
        dev.func < 8,
    ensures
        forall|cfg: &mut Traced<R>| #[trigger]
            call_ensures(PciBus::read_config::<R>, (bus, cfg, dev, offset), val)
                ==> (*final(cfg)).trace() == (*cfg).trace().push(
                RegOp::Read {
                    offset: (0x8000_0000 + dev.bus * 0x1_0000 + dev.dev * 0x800 + dev.func * 0x100
                        + offset - offset % 4) as usize,
                    value: val,
                },
            ),
        forall|cfg: &mut Traced<R>| #[trigger]
            call_ensures(PciBus::write_config::<R>, (bus, cfg, dev, offset, val), ())
                ==> (*final(cfg)).trace() == (*cfg).trace().push(
                RegOp::Write {
                    offset: (0x8000_0000 + dev.bus * 0x1_0000 + dev.dev * 0x800 + dev.func * 0x100
                        + offset - offset % 4) as usize,
                    value: val,
                },
            ),
{
    config_address_parts(dev.bus, dev.dev, dev.func, offset);
}

/// A BAR that reads an address with flags beside it gives that address, for
/// every address whose low four bits are clear: the 32 bits of it, or, where
/// the flags say that it is a 64-bit one, these under the next register.
#[verifier::spinoff_prover]
#[verifier::rlimit(50)]
pub proof fn bar_gives_its_address<R: RegisterAccess>(
    bus: &PciBus,
    dev: &PciDevice,
    bar: u8,
    low: u32,
    flags: u32,
    upper: u32,
    addr: u64,
)
    requires
        dev.dev < 32,
        dev.func < 8,
        bar <= 58,
        low % 16 == 0,
        flags < 16,
    ensures
        forall|cfg: &mut Traced<R>| #[trigger]
            call_ensures(PciBus::read_bar::<R>, (bus, cfg, dev, bar), addr) ==> {
                let n = (*cfg).trace().len() as int;
                let trace = (*final(cfg)).trace();
                let there = 0x8000_0000 + dev.bus * 0x1_0000 + dev.dev * 0x800 + dev.func * 0x100
                    + 0x10 + 4 * bar;
                &&& trace.len() > n
                &&& trace.take(n) == (*cfg).trace()
                &&& trace[n] is Read
                &&& trace[n]->Read_offset == there
                &&& trace[n]->Read_value == low + flags && flags / 2 % 4 != 2 ==> addr == low
                    && trace.len() == n + 1
                &&& trace[n]->Read_value == low + flags && flags / 2 % 4 == 2 ==> {
                    &&& trace.len() == n + 2
                    &&& trace[n + 1] is Read
                    &&& trace[n + 1]->Read_offset == there + 4
                    &&& trace[n + 1]->Read_value == upper ==> addr == upper * 0x1_0000_0000 + low
                }
            },
{
    config_address_parts(dev.bus, dev.dev, dev.func, (0x10 + bar * 4) as u8);
    config_address_parts(dev.bus, dev.dev, dev.func, (0x14 + bar * 4) as u8);
    assert forall|cfg: &mut Traced<R>| #[trigger]
        call_ensures(PciBus::read_bar::<R>, (bus, cfg, dev, bar), addr) implies {
        let n = (*cfg).trace().len() as int;
        let trace = (*final(cfg)).trace();
        let there = 0x8000_0000 + dev.bus * 0x1_0000 + dev.dev * 0x800 + dev.func * 0x100 + 0x10 + 4
            * bar;
        &&& trace.len() > n
        &&& trace.take(n) == (*cfg).trace()
        &&& trace[n] is Read
        &&& trace[n]->Read_offset == there
        &&& trace[n]->Read_value == low + flags && flags / 2 % 4 != 2 ==> addr == low && trace.len()
            == n + 1
        &&& trace[n]->Read_value == low + flags && flags / 2 % 4 == 2 ==> {
            &&& trace.len() == n + 2
            &&& trace[n + 1] is Read
            &&& trace[n + 1]->Read_offset == there + 4
            &&& trace[n + 1]->Read_value == upper ==> addr == upper * 0x1_0000_0000 + low
        }
    } by {
        let n = (*cfg).trace().len() as int;
        let trace = (*final(cfg)).trace();
        let ops = since((*cfg).trace(), trace);
        assert(ops[0] == trace[n]);
        if ops.len() == 2 {
            assert(ops[1] == trace[n + 1]);
        }
        let raw = ops[0]->Read_value;
        if raw == low + flags {
            assert(raw % 16 == flags);
            assert(raw / 2 % 4 == flags / 2 % 4);
        }
    }
}

/// Two 32-bit BARs that read differently above the flags give different
/// addresses.
pub proof fn bars_are_told_apart<R: RegisterAccess>(
    bus: &PciBus,
    dev: &PciDevice,
    bar: u8,
    low: u32,
    flags: u32,
    low2: u32,
    flags2: u32,
    addr: u64,
)
    requires
        dev.dev < 32,
        dev.func < 8,
        bar <= 58,
        low % 16 == 0,
        flags < 16,
        flags / 2 % 4 != 2,
        low2 % 16 == 0,
        flags2 < 16,
        flags2 / 2 % 4 != 2,
    ensures
        forall|cfg: &mut Traced<R>, cfg2: &mut Traced<R>|
            (#[trigger] call_ensures(PciBus::read_bar::<R>, (bus, cfg, dev, bar), addr))
                && (#[trigger] call_ensures(PciBus::read_bar::<R>, (bus, cfg2, dev, bar), addr))
                && (*final(cfg)).trace()[(*cfg).trace().len() as int]->Read_value == low + flags
                && (*final(cfg2)).trace()[(*cfg2).trace().len() as int]->Read_value == low2 + flags2
                ==> low == low2,
{
    bar_gives_its_address::<R>(bus, dev, bar, low, flags, 0, addr);
    bar_gives_its_address::<R>(bus, dev, bar, low2, flags2, 0, addr);
}

/// A search gives the lowest device of bus 0 whose identification word holds
/// the vendor in its low and one of the wanted ids in its high half, with the
/// class and subclass of its class word; it gives none only where there is no
/// such device.
pub proof fn search_gives_the_lowest<R: RegisterAccess>(
    bus: &PciBus,
    vendor: u16,
    ids: &[u16],
    space: spec_fn(usize) -> u32,
    r: Option<PciDevice>,
)
    ensures
        forall|cfg: &mut Traced<R>| #[trigger]
            call_ensures(PciBus::find_device_any::<R>, (bus, cfg, vendor, ids), r) && answered_by(
                since((*cfg).trace(), (*final(cfg)).trace()),
                space,
            ) ==> found_in(space, vendor, ids@, r),
{
    assert forall|cfg: &mut Traced<R>| #[trigger]
        call_ensures(PciBus::find_device_any::<R>, (bus, cfg, vendor, ids), r) && answered_by(
            since((*cfg).trace(), (*final(cfg)).trace()),
            space,
        ) implies found_in(space, vendor, ids@, r) by {
        search_is_found(since((*cfg).trace(), (*final(cfg)).trace()), space, vendor, ids@, r);
    }
}

/// The same for a single id.
pub proof fn search_for_one_gives_the_lowest<R: RegisterAccess>(
    bus: &PciBus,
    vendor: u16,
    id: u16,
    space: spec_fn(usize) -> u32,
    r: Option<PciDevice>,
)
    ensures
        forall|cfg: &mut Traced<R>| #[trigger]
            call_ensures(PciBus::find_device::<R>, (bus, cfg, vendor, id), r) && answered_by(
                since((*cfg).trace(), (*final(cfg)).trace()),
                space,
            ) ==> found_in(space, vendor, seq![id], r),
{
    assert forall|cfg: &mut Traced<R>| #[trigger]
        call_ensures(PciBus::find_device::<R>, (bus, cfg, vendor, id), r) && answered_by(
            since((*cfg).trace(), (*final(cfg)).trace()),
            space,
        ) implies found_in(space, vendor, seq![id], r) by {
        search_is_found(since((*cfg).trace(), (*final(cfg)).trace()), space, vendor, seq![id], r);
    }
}

/// Whether device `dev` of bus 0 answers, with the vendor and one of the ids.
pub open spec fn answers_to(
    space: spec_fn(usize) -> u32,
    dev: int,
    vendor: u16,
    ids: Seq<u16>,
) -> bool {
    &&& word_of(space, dev, 0, 0) != 0xFFFF_FFFF
    &&& word_of(space, dev, 0, 0) % 0x1_0000 == vendor
    &&& exists|i: int|
        0 <= i < ids.len() && #[trigger] ids[i] == word_of(space, dev, 0, 0) / 0x1_0000
}

/// Whether `r` is the lowest device of bus 0 that answers so.
pub open spec fn found_in(
    space: spec_fn(usize) -> u32,
    vendor: u16,
    ids: Seq<u16>,
    r: Option<PciDevice>,
) -> bool {
    match r {
        Some(d) => {
            &&& d.bus == 0
            &&& d.dev < 32
            &&& d.func == 0
            &&& answers_to(space, d.dev as int, vendor, ids)
            &&& d.vendor == vendor
            &&& d.device == word_of(space, d.dev as int, 0, 0) / 0x1_0000
            &&& d.class == word_of(space, d.dev as int, 0, 8) / 0x100_0000
            &&& d.subclass == word_of(space, d.dev as int, 0, 8) / 0x1_0000 % 0x100
            &&& forall|dev: int| 0 <= dev < d.dev ==> !#[trigger] answers_to(space, dev, vendor, ids)
        },
        None => forall|dev: int| 0 <= dev < 32 ==> !#[trigger] answers_to(space, dev, vendor, ids),
    }
}

proof fn wanted_answers(space: spec_fn(usize) -> u32, dev: u8, vendor: u16, ids: Seq<u16>)
    requires
        dev < 32,
    ensures
        wanted(space(at(0, dev, 0, 0)), vendor, ids) == answers_to(space, dev as int, vendor, ids),
{
    word_lies_there(space, dev, 0);
    let id = space(at(0, dev, 0, 0));
    if ids.contains((id / 65536) as u16) {
        let i = ids.index_of((id / 65536) as u16);
        assert(ids[i] == id / 0x1_0000);
    }
}

proof fn search_is_found(
    ops: Seq<RegOp>,
    space: spec_fn(usize) -> u32,
    vendor: u16,
    ids: Seq<u16>,
    r: Option<PciDevice>,
)
    requires
        searched(ops, vendor, ids, r),
        answered_by(ops, space),
    ensures
        found_in(space, vendor, ids, r),
{
    lowest_device_found(ops, space, vendor, ids, r);
    let n: int = match r {
        Some(d) => d.dev as int,
        None => 32,
    };
    assert forall|dev: int| 0 <= dev < n implies !#[trigger] answers_to(space, dev, vendor, ids) by {
        assert(!wanted(space(at(0, dev as u8, 0, 0)), vendor, ids));
        wanted_answers(space, dev as u8, vendor, ids);
    }
    if let Some(d) = r {
        wanted_answers(space, d.dev, vendor, ids);
        word_lies_there(space, d.dev, 0);
    }
}

/// Whether a function of bus 0 can be found: it answers, and so does function 0
/// of its device, which says (bit 23 of the word that holds the header type)
/// that there are more.
pub open spec fn can_be_found(space: spec_fn(usize) -> u32, dev: int, func: int) -> bool {
    &&& 0 <= dev < 32
    &&& 0 <= func < 8
    &&& word_of(space, dev, func, 0) != 0xFFFF_FFFF
    &&& func > 0 ==> word_of(space, dev, 0, 0) != 0xFFFF_FFFF && word_of(space, dev, 0, 12)
        / 0x80_0000 % 2 == 1
}

/// Enumeration gives every function of bus 0 that can be found, in the order of
/// their places, as their words describe them, and gives nothing else.
pub proof fn enumeration_gives_what_is_there<R: RegisterAccess>(
    bus: &PciBus,
    space: spec_fn(usize) -> u32,
    out: Vec<PciDevice>,
)
    ensures
        forall|cfg: &mut Traced<R>| #[trigger]
            call_ensures(PciBus::enumerate::<R>, (bus, cfg), out) && answered_by(
                since((*cfg).trace(), (*final(cfg)).trace()),
                space,
            ) ==> lists_what_is_there(space, out@),
{
    assert forall|cfg: &mut Traced<R>| #[trigger]
        call_ensures(PciBus::enumerate::<R>, (bus, cfg), out) && answered_by(
            since((*cfg).trace(), (*final(cfg)).trace()),
            space,
        ) implies lists_what_is_there(space, out@) by {
        devices_are_listed(space);
    }
}

/// The list of every device that enumeration can reach is the list of what can
/// be found.
pub proof fn devices_are_listed(space: spec_fn(usize) -> u32)
    ensures
        lists_what_is_there(space, devices(space, 32)),
{
    enumeration_is_complete(space);
    let s = devices(space, 32);
    assert forall|i: int| 0 <= i < s.len() implies is_as_described(space, #[trigger] s[i]) by {
        assert(reachable(space, s[i].dev, s[i].func));
        word_lies_there(space, s[i].dev, s[i].func);
        word_lies_there(space, s[i].dev, 0);
    }
    assert forall|dev: int, func: int| #[trigger]
        can_be_found(space, dev, func) implies exists|i: int|
        0 <= i < s.len() && (#[trigger] s[i]).dev == dev && s[i].func == func by {
        word_lies_there(space, dev as u8, func as u8);
        word_lies_there(space, dev as u8, 0);
        assert(reachable(space, dev as u8, func as u8));
        let d = present_at(space, dev as u8, func as u8);
        assert(devices(space, 32).contains(d));
        assert(s[s.index_of(d)] == d);
    }
    assert forall|i: int, j: int| 0 <= i < j < s.len() implies (#[trigger] s[i]).dev * 8
        + s[i].func < (#[trigger] s[j]).dev * 8 + s[j].func by {
        assert(comes_before(s[i], s[j]));
        assert(is_as_described(space, s[i]));
        assert(is_as_described(space, s[j]));
    }
}

/// Whether `d` can be found and is as its words describe it.
pub open spec fn is_as_described(space: spec_fn(usize) -> u32, d: PciDevice) -> bool {
    let id = word_of(space, d.dev as int, d.func as int, 0);
    let class = word_of(space, d.dev as int, d.func as int, 8);
    &&& d.bus == 0
    &&& can_be_found(space, d.dev as int, d.func as int)
    &&& d.vendor == id % 0x1_0000
    &&& d.device == id / 0x1_0000
    &&& d.class == class / 0x100_0000
    &&& d.subclass == class / 0x1_0000 % 0x100
}

/// Whether `s` lists every function of bus 0 that can be found, in the order of
/// their places, and nothing else.
pub open spec fn lists_what_is_there(space: spec_fn(usize) -> u32, s: Seq<PciDevice>) -> bool {
    &&& forall|i: int| 0 <= i < s.len() ==> is_as_described(space, #[trigger] s[i])
    &&& forall|dev: int, func: int| #[trigger]
        can_be_found(space, dev, func) ==> exists|i: int|
            0 <= i < s.len() && (#[trigger] s[i]).dev == dev && s[i].func == func
    &&& forall|i: int, j: int|
        0 <= i < j < s.len() ==> (#[trigger] s[i]).dev * 8 + s[i].func < (#[trigger] s[j]).dev * 8
            + s[j].func
}

/// Where configuration space stores what is written to it, a device whose bus
/// mastering is enabled has bits 0 to 2 of its command register set; every
/// other bit of that word and every other word is as before. What is given is
/// the command register as it is then.
pub proof fn bus_mastering_sets_three_bits<R: RegisterAccess>(
    bus: &PciBus,
    dev: &PciDevice,
    space: spec_fn(usize) -> u32,
    readback: u16,
)
    requires
        dev.dev < 32,
        dev.func < 8,
    ensures
        forall|cfg: &mut Traced<R>| #[trigger]
            call_ensures(PciBus::enable_bus_mastering::<R>, (bus, cfg, dev), readback)
                && stored_answers(space, since((*cfg).trace(), (*final(cfg)).trace())) ==> {
                let after = stored(space, since((*cfg).trace(), (*final(cfg)).trace()));
                let it = (0x8000_0000 + dev.bus * 0x1_0000 + dev.dev * 0x800 + dev.func * 0x100
                    + 4) as usize;
                &&& after(it) % 8 == 7
                &&& after(it) / 8 == space(it) / 8
                &&& readback == after(it) % 0x1_0000
                &&& forall|o: usize| o != it ==> #[trigger] after(o) == space(o)
            },
{
    config_address_parts(dev.bus, dev.dev, dev.func, 4);
    let it = at(dev.bus, dev.dev, dev.func, 4);
    assert forall|cfg: &mut Traced<R>| #[trigger]
        call_ensures(PciBus::enable_bus_mastering::<R>, (bus, cfg, dev), readback)
            && stored_answers(space, since((*cfg).trace(), (*final(cfg)).trace())) implies {
        let after = stored(space, since((*cfg).trace(), (*final(cfg)).trace()));
        &&& after(it) % 8 == 7
        &&& after(it) / 8 == space(it) / 8
        &&& readback == after(it) % 0x1_0000
        &&& forall|o: usize| o != it ==> #[trigger] after(o) == space(o)
    } by {
        let ops = since((*cfg).trace(), (*final(cfg)).trace());
        let after = stored(space, ops);
        reveal_with_fuel(stored, 5);
        assert(ops[0] is Read && ops[1] is Read && ops[3] is Read);
        assert(ops.take(0) =~= Seq::empty());
        assert(ops.take(1).drop_last() =~= ops.take(0));
        assert(ops.take(3).drop_last() =~= ops.take(2));
        assert(ops.take(2).drop_last() =~= ops.take(1));
        assert(ops.drop_last() =~= ops.take(3));
        let w = space(it);
        assert(ops[0]->Read_value == w);
        assert(ops[1]->Read_value == w);
        let cmd = (w % 65536) as u16;
        assert((cmd | 7) % 8 == 7 && (cmd | 7) / 8 == cmd / 8) by (bit_vector);
        assert(after(it) == w - w % 65536 + (cmd | 7));
    }
}

/// The address that a BAR gives, in what was read of it: its word without the
/// low four bits, under the next word where the flags say that it is a 64-bit
/// one.
pub open spec fn bar_address(low: u32, next: u32) -> int {
    if low / 2 % 4 == 2 {
        next * 0x1_0000_0000 + (low - low % 16)
    } else {
        low - low % 16
    }
}

/// What reading a BAR consists of.
pub proof fn bar_reading_is_so(ops: Seq<RegOp>, dev: PciDevice, bar: u8, addr: u64)
    requires
        dev.dev < 32,
        dev.func < 8,
        bar <= 58,
        bar_read(ops, dev, bar, addr),
    ensures
        ops.len() == if ops[0]->Read_value / 2 % 4 == 2 {
            2int
        } else {
            1
        },
        ops[0] is Read,
        ops[0]->Read_offset == 0x8000_0000 + dev.bus * 0x1_0000 + dev.dev * 0x800 + dev.func * 0x100
            + 0x10 + 4 * bar,
        ops.len() == 2 ==> ops[1] is Read && ops[1]->Read_offset == ops[0]->Read_offset + 4,
        addr == bar_address(ops[0]->Read_value, ops[1]->Read_value),
{
    config_address_parts(dev.bus, dev.dev, dev.func, (0x10 + bar * 4) as u8);
    config_address_parts(dev.bus, dev.dev, dev.func, (0x14 + bar * 4) as u8);
}

/// What enabling bus mastering consists of: the command register is read, its
/// word is read, the word is written with the low three bits set and every
/// other bit as it was read, and the command register is read.
pub proof fn bus_mastering_is_so(ops: Seq<RegOp>, dev: PciDevice, readback: u16)
    requires
        dev.dev < 32,
        dev.func < 8,
        bus_mastered(ops, dev, readback),
    ensures
        ({
            let command = 0x8000_0000 + dev.bus * 0x1_0000 + dev.dev * 0x800 + dev.func * 0x100 + 4;
            let written = ops[2]->Write_value;
            &&& ops.len() == 4
            &&& ops[0] is Read && ops[0]->Read_offset == command
            &&& ops[1] is Read && ops[1]->Read_offset == command
            &&& ops[2] is Write && ops[2]->Write_offset == command
            &&& ops[3] is Read && ops[3]->Read_offset == command
            &&& written % 8 == 7
            &&& written % 0x1_0000 / 8 == ops[0]->Read_value % 0x1_0000 / 8
            &&& written / 0x1_0000 == ops[1]->Read_value / 0x1_0000
            &&& readback == ops[3]->Read_value % 0x1_0000
        }),
{
    config_address_parts(dev.bus, dev.dev, dev.func, 4);
    let cmd = (ops[0]->Read_value % 65536) as u16;
    assert((cmd | 7) % 8 == 7 && (cmd | 7) / 8 == cmd / 8) by (bit_vector);
}

/// A 16-bit register is written by reading its word and writing it back, with
/// the one half replaced and the other as it was read.
pub proof fn half_is_written<R: RegisterAccess>(bus: u8, dev: u8, func: u8, offset: u8, val: u16)
    requires
        dev < 32,
        func < 8,
    ensures
        forall|cfg: &mut Traced<R>| #[trigger]
            call_ensures(pci_write16::<R>, (cfg, bus, dev, func, offset, val), ()) ==> {
                let n = (*cfg).trace().len() as int;
                let trace = (*final(cfg)).trace();
                let word = trace[n]->Read_value;
                let there = 0x8000_0000 + bus * 0x1_0000 + dev * 0x800 + func * 0x100 + offset
                    - offset % 4;
                &&& trace.len() == n + 2
                &&& trace[n] is Read && trace[n]->Read_offset == there
                &&& trace[n + 1] is Write && trace[n + 1]->Write_offset == there
                &&& offset % 4 < 2 ==> trace[n + 1]->Write_value % 0x1_0000 == val && trace[n
                    + 1]->Write_value / 0x1_0000 == word / 0x1_0000
                &&& offset % 4 >= 2 ==> trace[n + 1]->Write_value / 0x1_0000 == val && trace[n
                    + 1]->Write_value % 0x1_0000 == word % 0x1_0000
            },
{
    config_address_parts(bus, dev, func, offset);
}

/// The configuration space is addressed through one port and read through the
/// next.
pub proof fn configuration_ports()
    ensures
        PCI_CONFIG_ADDR == 0xCF8,
        PCI_CONFIG_DATA == 0xCF8 + 4,
{
}

} // verus!
