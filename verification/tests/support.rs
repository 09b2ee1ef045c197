use apic::{LocalApic, X2Apic, XApic};
use x86::cpuid::CpuId;

#[test]
fn xapic_support_is_what_the_processor_reports() {
    let reported = match CpuId::new().get_feature_info() {
        Some(info) => info.has_apic(),
        None => false,
    };
    assert_eq!(XApic::support(), reported);
}

#[test]
fn x2apic_support_is_what_the_processor_reports() {
    let reported = match CpuId::new().get_feature_info() {
        Some(info) => info.has_x2apic(),
        None => false,
    };
    assert_eq!(X2Apic::support(), reported);
}

#[test]
fn support_does_not_change_between_calls() {
    assert_eq!(XApic::support(), XApic::support());
    assert_eq!(X2Apic::support(), X2Apic::support());
}
