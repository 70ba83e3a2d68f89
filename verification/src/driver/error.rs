//! Error returned by `ProbeCtx` and the drivers' `probe`.

use crate::text::{
    hex, hex_stands_for_the_number, hex_tells_numbers_apart, number, push_hex, push_text,
};
use vstd::prelude::*;

verus! {

/// All ways probing can fail.
#[derive(Debug, Clone, Copy, PartialEq, Eq)]
pub enum ProbeError {
    /// PCI config 0x3C reported 0xFF (no IRQ wired) or a pin index outside
    /// the IOAPIC's redirection table.
    InvalidIrqLine(u8),
    /// `VectorAllocator` ran out of free IDT vectors.
    NoFreeVector,
    /// Mapping device memory failed (out of HHDM space, etc.).
    MmioMap,
    /// DMA allocation failed (heap exhausted).
    DmaAlloc,
    /// Driver-specific failure (link timeout, EEPROM CRC, VMBus channel-open
    /// NAK, ...). Carries a `&'static str` so each driver can give a one-line
    /// reason.
    Driver(&'static str),
}

impl ProbeError {
    /// The text that describes this error.
    pub open spec fn text(self) -> Seq<char> {
        match self {
            ProbeError::InvalidIrqLine(line) => "invalid PCI IRQ line 0x"@ + hex(line as nat),
            ProbeError::NoFreeVector => "no free IDT vector"@,
            ProbeError::MmioMap => "MMIO mapping failed"@,
            ProbeError::DmaAlloc => "DMA allocation failed"@,
            ProbeError::Driver(msg) => "driver error: "@ + msg@,
        }
    }

    /// Describe this error in one line.
    pub fn message(&self) -> (s: String)
        ensures
            s@ == self.text(),
    {
        let mut s = String::new();
        match self {
            ProbeError::InvalidIrqLine(line) => {
                push_text(&mut s, "invalid PCI IRQ line 0x");
                push_hex(&mut s, *line as u16);
            },
            ProbeError::NoFreeVector => push_text(&mut s, "no free IDT vector"),
            ProbeError::MmioMap => push_text(&mut s, "MMIO mapping failed"),
            ProbeError::DmaAlloc => push_text(&mut s, "DMA allocation failed"),
            ProbeError::Driver(msg) => {
                push_text(&mut s, "driver error: ");
                push_text(&mut s, *msg);
            },
        }
        assert(s@ =~= self.text());
        s
    }
}

/// Errors are told apart by what is said of them, as far as what they carry is.
pub proof fn probe_errors_are_told_apart(a: &ProbeError, b: &ProbeError, s: String, t: String)
    requires
        call_ensures(ProbeError::message, (a,), s),
        call_ensures(ProbeError::message, (b,), t),
        s@ == t@,
    ensures
        match (*a, *b) {
            (ProbeError::InvalidIrqLine(x), ProbeError::InvalidIrqLine(y)) => x == y,
            (ProbeError::NoFreeVector, ProbeError::NoFreeVector) => true,
            (ProbeError::MmioMap, ProbeError::MmioMap) => true,
            (ProbeError::DmaAlloc, ProbeError::DmaAlloc) => true,
            (ProbeError::Driver(x), ProbeError::Driver(y)) => x@ == y@,
            _ => false,
        },
{
    reveal_strlit("invalid PCI IRQ line 0x");
    reveal_strlit("no free IDT vector");
    reveal_strlit("MMIO mapping failed");
    reveal_strlit("DMA allocation failed");
    reveal_strlit("driver error: ");
    assert(a.text() == b.text());
    match *a {
        ProbeError::InvalidIrqLine(x) => {
            assert(a.text()[0] == 'i' && a.text()[1] == 'n');
            assert(a.text().skip(23) =~= hex(x as nat));
        },
        ProbeError::Driver(x) => {
            assert(a.text()[0] == 'd' && a.text()[1] == 'r');
            assert(a.text().skip(14) =~= x@);
        },
        _ => {},
    }
    match *b {
        ProbeError::InvalidIrqLine(y) => {
            assert(b.text()[0] == 'i' && b.text()[1] == 'n');
            assert(b.text().skip(23) =~= hex(y as nat));
            if let ProbeError::InvalidIrqLine(x) = *a {
                hex_tells_numbers_apart(x as nat, y as nat);
            }
        },
        ProbeError::Driver(y) => {
            assert(b.text()[0] == 'd' && b.text()[1] == 'r');
            assert(b.text().skip(14) =~= y@);
        },
        _ => {},
    }
}

/// The number at the end of what is said of a line is the line, and what a
/// driver says stands at the end as it is.
pub proof fn lines_and_words_are_told(line: u8, s: String, words: &'static str, t: String)
    ensures
        call_ensures(ProbeError::message, (&ProbeError::InvalidIrqLine(line),), s) ==> s@.len() > 23
            && number(s@.skip(23)) == line,
        call_ensures(ProbeError::message, (&ProbeError::Driver(words),), t) ==> t@.skip(14)
            == words@,
{
    reveal_strlit("invalid PCI IRQ line 0x");
    reveal_strlit("driver error: ");
    hex_stands_for_the_number(line as nat);
    if call_ensures(ProbeError::message, (&ProbeError::InvalidIrqLine(line),), s) {
        assert(s@.skip(23) =~= hex(line as nat));
    }
    if call_ensures(ProbeError::message, (&ProbeError::Driver(words),), t) {
        assert(t@.skip(14) =~= words@);
    }
}

/// Each error is said in its own words, followed by what it carries.
pub proof fn probe_errors_say(e: &ProbeError, s: String)
    requires
        call_ensures(ProbeError::message, (e,), s),
    ensures
        *e matches ProbeError::InvalidIrqLine(_) ==> s@.take(23) == "invalid PCI IRQ line 0x"@,
        *e matches ProbeError::NoFreeVector ==> s@ == "no free IDT vector"@,
        *e matches ProbeError::MmioMap ==> s@ == "MMIO mapping failed"@,
        *e matches ProbeError::DmaAlloc ==> s@ == "DMA allocation failed"@,
        *e matches ProbeError::Driver(_) ==> s@.take(14) == "driver error: "@,
{
    reveal_strlit("invalid PCI IRQ line 0x");
    reveal_strlit("driver error: ");
    match *e {
        ProbeError::InvalidIrqLine(_) => {
            assert(s@.take(23) =~= "invalid PCI IRQ line 0x"@);
        },
        ProbeError::Driver(_) => {
            assert(s@.take(14) =~= "driver error: "@);
        },
        _ => {},
    }
}

} // verus!
