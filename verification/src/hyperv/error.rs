//! Errors of the Hyper-V layer.

use crate::text::{hex, hex_stands_for_the_number, number, push_hex, push_text};
use vstd::prelude::*;

verus! {

/// Error type for Hyper-V / VMBus operations.
#[derive(Debug, Clone, Copy, PartialEq, Eq, Structural)]
pub enum HvError {
    /// Not running on Hyper-V hypervisor.
    NotHyperV,
    /// SynIC feature not available.
    NoSynIC,
    /// Hypercall MSR not available.
    NoHypercall,
    /// Hypercall returned a non-zero status code.
    HypercallFailed(u16),
    /// Hypercall returned InsufficientBuffers too many times.
    HypercallRetryExhausted,
    /// All VMBus protocol versions were rejected by the host.
    VersionRejected,
    /// Timed out waiting for a response from the host.
    Timeout,
}

impl HvError {
    /// The text that describes this error.
    pub open spec fn text(self) -> Seq<char> {
        match self {
            HvError::NotHyperV => "not running on Hyper-V"@,
            HvError::NoSynIC => "SynIC not available"@,
            HvError::NoHypercall => "hypercall MSR not available"@,
            HvError::HypercallFailed(s) => "hypercall failed: status 0x"@ + hex(s as nat),
            HvError::HypercallRetryExhausted => "hypercall retry exhausted"@,
            HvError::VersionRejected => "VMBus version rejected by host"@,
            HvError::Timeout => "timeout waiting for host response"@,
        }
    }

    /// Describe this error in one line.
    pub fn message(&self) -> (s: String)
        ensures
            s@ == self.text(),
    {
        let mut s = String::new();
        match self {
            HvError::NotHyperV => push_text(&mut s, "not running on Hyper-V"),
            HvError::NoSynIC => push_text(&mut s, "SynIC not available"),
            HvError::NoHypercall => push_text(&mut s, "hypercall MSR not available"),
            HvError::HypercallFailed(status) => {
                push_text(&mut s, "hypercall failed: status 0x");
                push_hex(&mut s, *status);
            },
            HvError::HypercallRetryExhausted => push_text(&mut s, "hypercall retry exhausted"),
            HvError::VersionRejected => push_text(&mut s, "VMBus version rejected by host"),
            HvError::Timeout => push_text(&mut s, "timeout waiting for host response"),
        }
        assert(s@ =~= self.text());
        s
    }
}

/// Errors are told apart by what is said of them, and a status is told by its
/// own number.
pub proof fn errors_are_told_apart(a: &HvError, b: &HvError, s: String, t: String)
    requires
        call_ensures(HvError::message, (a,), s),
        call_ensures(HvError::message, (b,), t),
        s@ == t@,
    ensures
        *a == *b,
{
    reveal_strlit("not running on Hyper-V");
    reveal_strlit("SynIC not available");
    reveal_strlit("hypercall MSR not available");
    reveal_strlit("hypercall failed: status 0x");
    reveal_strlit("hypercall retry exhausted");
    reveal_strlit("VMBus version rejected by host");
    reveal_strlit("timeout waiting for host response");
    assert(a.text() == b.text());
    if let HvError::HypercallFailed(x) = *a {
        hex_stands_for_the_number(x as nat);
        assert(a.text()[10] == 'f');
        assert(a.text()[0] == 'h');
        assert(a.text().skip(27) =~= hex(x as nat));
    }
    if let HvError::HypercallFailed(y) = *b {
        hex_stands_for_the_number(y as nat);
        assert(b.text()[10] == 'f');
        assert(b.text()[0] == 'h');
        assert(b.text().skip(27) =~= hex(y as nat));
    }
}

/// The number at the end of what is said of a status is the status.
pub proof fn status_is_told(status: u16, s: String)
    requires
        call_ensures(HvError::message, (&HvError::HypercallFailed(status),), s),
    ensures
        s@.len() > 27,
        s@[25] == '0',
        s@[26] == 'x',
        number(s@.skip(27)) == status,
{
    reveal_strlit("hypercall failed: status 0x");
    hex_stands_for_the_number(status as nat);
    assert(s@.skip(27) =~= hex(status as nat));
}

/// Each error is said in its own words, and of a failed hypercall the status
/// follows them.
pub proof fn errors_say(e: &HvError, s: String)
    requires
        call_ensures(HvError::message, (e,), s),
    ensures
        *e == HvError::NotHyperV ==> s@ == "not running on Hyper-V"@,
        *e == HvError::NoSynIC ==> s@ == "SynIC not available"@,
        *e == HvError::NoHypercall ==> s@ == "hypercall MSR not available"@,
        *e matches HvError::HypercallFailed(_) ==> s@.take(27) == "hypercall failed: status 0x"@,
        *e == HvError::HypercallRetryExhausted ==> s@ == "hypercall retry exhausted"@,
        *e == HvError::VersionRejected ==> s@ == "VMBus version rejected by host"@,
        *e == HvError::Timeout ==> s@ == "timeout waiting for host response"@,
{
    reveal_strlit("hypercall failed: status 0x");
    if let HvError::HypercallFailed(_) = *e {
        assert(s@.take(27) =~= "hypercall failed: status 0x"@);
    }
}

} // verus!
