//! What the bootloader says.

use vstd::prelude::*;

verus! {

/// Information collected from the bootloader's responses, in the form
/// [`init`](super::boot::init) expects.
#[derive(Debug, Clone, Copy)]
pub struct LimineBootInfo<'a> {
    /// Higher-half direct map offset: `vaddr = paddr + hhdm_offset`.
    pub hhdm_offset: u64,
    /// Kernel virtual-to-physical offset: `paddr = vaddr - kernel_offset`.
    pub kernel_offset: u64,
    /// Kernel command-line string, or `""` if there is none.
    pub cmdline: &'a str,
}

/// The bootloader's responses. One that is missing is `None`.
#[derive(Debug, Clone, Copy)]
pub struct Responses<'a> {
    /// Whether the bootloader honoured the requested base revision.
    pub base_revision_supported: bool,
    /// Offset of the higher-half direct map.
    pub hhdm_offset: Option<u64>,
    /// Virtual and physical base of the kernel.
    pub kernel_base: Option<(u64, u64)>,
    /// Command line, where it is text.
    pub cmdline: Option<&'a str>,
}

/// Why the responses are of no use.
#[derive(Debug, Clone, Copy, PartialEq, Eq, Structural)]
pub enum BootInfoError {
    BaseRevision,
    NoHhdm,
    NoKernelAddress,
    /// The kernel's physical base is above its virtual base.
    KernelAddress,
}

impl BootInfoError {
    /// The text that describes this error.
    pub open spec fn text(self) -> Seq<char> {
        match self {
            BootInfoError::BaseRevision => "Limine base revision not supported by bootloader"@,
            BootInfoError::NoHhdm => "Limine HhdmRequest response missing"@,
            BootInfoError::NoKernelAddress => {
                "Limine ExecutableAddressRequest response missing"@
            },
            BootInfoError::KernelAddress => "kernel virtual base is below its physical base"@,
        }
    }

    /// Describe this error in one line.
    pub fn message(&self) -> (s: &'static str)
        ensures
            s@ == self.text(),
    {
        match self {
            BootInfoError::BaseRevision => "Limine base revision not supported by bootloader",
            BootInfoError::NoHhdm => "Limine HhdmRequest response missing",
            BootInfoError::NoKernelAddress => "Limine ExecutableAddressRequest response missing",
            BootInfoError::KernelAddress => "kernel virtual base is below its physical base",
        }
    }
}

/// Build a [`LimineBootInfo`] from the bootloader's responses. A command line
/// may be missing; nothing else may, so that a bootloader that does not fit
/// fails loudly instead of producing wrong offsets.
pub fn collect<'a>(responses: &Responses<'a>) -> (r: Result<LimineBootInfo<'a>, BootInfoError>)
    ensures
        match r {
            Ok(info) => {
                &&& responses.base_revision_supported
                &&& responses.hhdm_offset == Some(info.hhdm_offset)
                &&& responses.kernel_base matches Some((virt, phys)) && info.kernel_offset == virt
                    - phys
                &&& match responses.cmdline {
                    Some(text) => info.cmdline == text,
                    None => info.cmdline == "",
                }
            },
            Err(e) => e == if !responses.base_revision_supported {
                BootInfoError::BaseRevision
            } else if responses.hhdm_offset is None {
                BootInfoError::NoHhdm
            } else if responses.kernel_base is None {
                BootInfoError::NoKernelAddress
            } else {
                BootInfoError::KernelAddress
            } && (e == BootInfoError::KernelAddress ==> (responses.kernel_base matches Some(
                (virt, phys),
            ) && virt < phys)),
        },
{
    if !responses.base_revision_supported {
        return Err(BootInfoError::BaseRevision);
    }
    let hhdm_offset: u64 = match responses.hhdm_offset {
        Some(offset) => offset,
        None => {
            return Err(BootInfoError::NoHhdm);
        },
    };
    let kernel_offset: u64 = match responses.kernel_base {
        Some((virt, phys)) => {
            if virt < phys {
                return Err(BootInfoError::KernelAddress);
            }
            virt - phys
        },
        None => {
            return Err(BootInfoError::NoKernelAddress);
        },
    };
    let cmdline: &'a str = match responses.cmdline {
        Some(text) => text,
        None => "",
    };
    Ok(LimineBootInfo { hhdm_offset, kernel_offset, cmdline })
}

/// What is collected is what was answered, and it is collected exactly where
/// everything but the command line was answered and the kernel's bases fit; the
/// first thing that is amiss is told.
pub proof fn answers_are_collected<'a>(
    responses: &Responses<'a>,
    r: Result<LimineBootInfo<'a>, BootInfoError>,
)
    requires
        call_ensures(collect, (responses,), r),
    ensures
        r is Ok <==> {
            &&& responses.base_revision_supported
            &&& responses.hhdm_offset is Some
            &&& responses.kernel_base matches Some((virt, phys)) && virt >= phys
        },
        r matches Ok(info) ==> {
            &&& responses.hhdm_offset == Some(info.hhdm_offset)
            &&& responses.kernel_base matches Some((virt, phys)) ==> info.kernel_offset + phys == virt
            &&& responses.cmdline matches Some(text) ==> info.cmdline@ == text@
            &&& responses.cmdline is None ==> info.cmdline@.len() == 0
        },
        r matches Err(e) ==> {
            &&& e == BootInfoError::BaseRevision <==> !responses.base_revision_supported
            &&& e == BootInfoError::NoHhdm <==> responses.base_revision_supported
                && responses.hhdm_offset is None
            &&& e == BootInfoError::NoKernelAddress <==> responses.base_revision_supported
                && responses.hhdm_offset is Some && responses.kernel_base is None
        },
{
    reveal_strlit("");
}

/// Errors are told apart by what is said of them.
pub proof fn boot_errors_are_told_apart(
    a: &BootInfoError,
    b: &BootInfoError,
    s: &'static str,
    t: &'static str,
)
    requires
        call_ensures(BootInfoError::message, (a,), s),
        call_ensures(BootInfoError::message, (b,), t),
        s@ == t@,
    ensures
        *a == *b,
{
    reveal_strlit("Limine base revision not supported by bootloader");
    reveal_strlit("Limine HhdmRequest response missing");
    reveal_strlit("Limine ExecutableAddressRequest response missing");
    reveal_strlit("kernel virtual base is below its physical base");
    assert(a.text()[0] == b.text()[0]);
    assert(a.text()[7] == b.text()[7]);
}

/// Each error is said in its own words.
pub proof fn boot_errors_say(e: &BootInfoError, s: &'static str)
    requires
        call_ensures(BootInfoError::message, (e,), s),
    ensures
        *e == BootInfoError::BaseRevision ==> s@
            == "Limine base revision not supported by bootloader"@,
        *e == BootInfoError::NoHhdm ==> s@ == "Limine HhdmRequest response missing"@,
        *e == BootInfoError::NoKernelAddress ==> s@
            == "Limine ExecutableAddressRequest response missing"@,
        *e == BootInfoError::KernelAddress ==> s@
            == "kernel virtual base is below its physical base"@,
{
}

} // verus!
