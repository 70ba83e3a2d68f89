//! Hyper-V detection via CPUID.

use vstd::prelude::*;

verus! {

/// Hyper-V feature flags discovered from CPUID.
#[derive(Debug, Clone, Copy, PartialEq, Eq, Structural)]
pub struct HvFeatures {
    /// Maximum hypervisor CPUID leaf (from CPUID 0x40000000.EAX).
    pub max_leaf: u32,
    /// SynIC registers are accessible (CPUID 0x40000003.EAX bit 2).
    pub has_synic: bool,
    /// Hypercall MSRs are accessible (CPUID 0x40000003.EAX bit 5).
    pub has_hypercall: bool,
}

/// Hypervisor vendor ID.
pub const VENDOR_LEAF: u32 = 0x40000000;

/// Partition privilege flags.
pub const PRIVILEGE_LEAF: u32 = 0x40000003;

/// What CPUID says of one leaf.
#[derive(Debug, Clone, Copy, PartialEq, Eq, Structural)]
pub struct Leaf {
    pub eax: u32,
    pub ebx: u32,
    pub ecx: u32,
    pub edx: u32,
}

/// `core::arch::x86_64::__cpuid`. What it says depends on the machine, so
/// nothing is claimed of it.
#[verifier::external_body]
fn cpuid(leaf: u32) -> Leaf {
    let r = core::arch::x86_64::__cpuid(leaf);
    Leaf { eax: r.eax, ebx: r.ebx, ecx: r.ecx, edx: r.edx }
}

/// Whether `r` is what asking CPUID for `leaf` gave.
pub closed spec fn cpuid_gave(leaf: u32, r: Leaf) -> bool {
    call_ensures(cpuid, (leaf,), r)
}

/// Whether a vendor leaf reads "Microsoft Hv" ("Micr", "osof", "t Hv").
pub open spec fn is_hyperv(vendor: Leaf) -> bool {
    vendor.ebx == 0x7263694D && vendor.ecx == 0x666F736F && vendor.edx == 0x76482074
}

/// The features that the two leaves tell of. The privilege leaf counts only
/// where the hypervisor has it.
pub open spec fn features(vendor: Leaf, privileges: Leaf) -> Option<HvFeatures> {
    if !is_hyperv(vendor) {
        None
    } else if vendor.eax < PRIVILEGE_LEAF {
        Some(HvFeatures { max_leaf: vendor.eax, has_synic: false, has_hypercall: false })
    } else {
        Some(
            HvFeatures {
                max_leaf: vendor.eax,
                has_synic: privileges.eax / 4 % 2 == 1,
                has_hypercall: privileges.eax / 32 % 2 == 1,
            },
        )
    }
}

/// Whether the privilege leaf has to be asked for.
pub fn needs_privileges(vendor: &Leaf) -> (r: bool)
    ensures
        r == (is_hyperv(*vendor) && vendor.eax >= PRIVILEGE_LEAF),
{
    vendor.ebx == 0x7263694D && vendor.ecx == 0x666F736F && vendor.edx == 0x76482074 && vendor.eax
        >= PRIVILEGE_LEAF
}

/// The features that the two leaves tell of.
pub fn from_leaves(vendor: &Leaf, privileges: &Leaf) -> (r: Option<HvFeatures>)
    ensures
        r == features(*vendor, *privileges),
{
    if vendor.ebx != 0x7263694D || vendor.ecx != 0x666F736F || vendor.edx != 0x76482074 {
        return None;
    }
    let max_leaf: u32 = vendor.eax;
    if max_leaf < PRIVILEGE_LEAF {
        return Some(HvFeatures { max_leaf, has_synic: false, has_hypercall: false });
    }
    Some(
        HvFeatures {
            max_leaf,
            has_synic: privileges.eax / 4 % 2 == 1,
            has_hypercall: privileges.eax / 32 % 2 == 1,
        },
    )
}

/// Detect Hyper-V hypervisor via CPUID 0x40000000.
///
/// Returns `None` if not running on Hyper-V. What it says is what the two
/// leaves tell of that CPUID gave; the privilege leaf is asked for only where
/// the hypervisor has it.
pub fn detect() -> (r: Option<HvFeatures>)
    ensures
        exists|vendor: Leaf, privileges: Leaf|
            {
                &&& cpuid_gave(VENDOR_LEAF, vendor)
                &&& is_hyperv(vendor) && vendor.eax >= PRIVILEGE_LEAF ==> cpuid_gave(
                    PRIVILEGE_LEAF,
                    privileges,
                )
                &&& r == #[trigger] features(vendor, privileges)
            },
{
    let vendor = cpuid(VENDOR_LEAF);
    let privileges = if needs_privileges(&vendor) {
        cpuid(PRIVILEGE_LEAF)
    } else {
        vendor
    };
    from_leaves(&vendor, &privileges)
}

/// Hyper-V is found only behind its signature, and features are promised only
/// by the leaf that has them.
pub proof fn features_need_signature(vendor: Leaf, privileges: Leaf)
    ensures
        features(vendor, privileges) is Some <==> is_hyperv(vendor),
        features(vendor, privileges) matches Some(f) ==> {
            &&& f.max_leaf == vendor.eax
            &&& f.has_synic || f.has_hypercall ==> f.max_leaf >= PRIVILEGE_LEAF
        },
{
}

/// Hyper-V is there exactly where the three words of the vendor leaf, byte by
/// byte from the lowest, spell its name. Then the highest leaf is told as it
/// is, and each feature exactly where its bit of the privilege leaf is set, bit
/// 2 and bit 5, and the hypervisor has that leaf.
pub proof fn name_and_bits_decide(vendor: &Leaf, privileges: &Leaf, r: Option<HvFeatures>)
    requires
        call_ensures(from_leaves, (vendor, privileges), r),
    ensures
        r is Some <==> {
            &&& vendor.ebx == 'M' as int + 0x100 * ('i' as int) + 0x1_0000 * ('c' as int)
                + 0x100_0000 * ('r' as int)
            &&& vendor.ecx == 'o' as int + 0x100 * ('s' as int) + 0x1_0000 * ('o' as int)
                + 0x100_0000 * ('f' as int)
            &&& vendor.edx == 't' as int + 0x100 * (' ' as int) + 0x1_0000 * ('H' as int)
                + 0x100_0000 * ('v' as int)
        },
        r matches Some(f) ==> {
            &&& f.max_leaf == vendor.eax
            &&& f.has_synic <==> vendor.eax >= 0x4000_0003 && privileges.eax % 8 >= 4
            &&& f.has_hypercall <==> vendor.eax >= 0x4000_0003 && privileges.eax % 64 >= 32
        },
        r == features(*vendor, *privileges),
{
}

/// The privilege leaf is asked for exactly where it counts: whatever it says
/// where it is not asked for, the features are the same.
pub proof fn privileges_are_asked_for_where_they_count(
    vendor: &Leaf,
    privileges: Leaf,
    others: Leaf,
    r: bool,
)
    requires
        call_ensures(needs_privileges, (vendor,), r),
    ensures
        !r ==> features(*vendor, privileges) == features(*vendor, others),
        r ==> is_hyperv(*vendor) && vendor.eax >= 0x4000_0003,
        is_hyperv(*vendor) && vendor.eax >= 0x4000_0003 ==> r,
{
}

/// What is detected is what CPUID gave at leaf 0x40000000 and, where it counts,
/// at leaf 0x40000003.
pub proof fn detection_asks_the_machine(r: Option<HvFeatures>)
    requires
        call_ensures(detect, (), r),
    ensures
        exists|vendor: Leaf, privileges: Leaf|
            {
                &&& cpuid_gave(0x4000_0000, vendor)
                &&& is_hyperv(vendor) && vendor.eax >= 0x4000_0003 ==> cpuid_gave(
                    0x4000_0003,
                    privileges,
                )
                &&& r == #[trigger] features(vendor, privileges)
            },
{
}

} // verus!
