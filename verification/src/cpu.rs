//! What the processor says of itself.

use vstd::prelude::*;

verus! {

/// The two feature flags of the processor that tell which local APIC it has.
#[derive(Clone, Copy, Debug, PartialEq, Eq, Structural)]
pub struct CpuFeatures {
    /// The processor has a local APIC that answers at memory-mapped registers.
    pub apic: bool,
    /// The local APIC can be driven through model-specific registers.
    pub x2apic: bool,
}

/// Asks the processor for its feature flags.
///
/// Runs `x86::cpuid::CpuId::new().get_feature_info()` and copies out what
/// `has_apic()` and `has_x2apic()` report; `None` where the processor does
/// not offer the feature leaf. The answer is the machine's: nothing is
/// claimed of it.
#[verifier::external_body]
pub(crate) fn query_features() -> (features: Option<CpuFeatures>) {
    match x86::cpuid::CpuId::new().get_feature_info() {
        Some(info) => Some(CpuFeatures { apic: info.has_apic(), x2apic: info.has_x2apic() }),
        None => None,
    }
}

} // verus!
