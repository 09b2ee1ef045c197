use std::collections::HashMap;

use apic::{Access, ApicError, CpuFeatures, LocalApic, Task, X2Apic};

/// Model-specific registers that read back what was written.
struct Msrs {
    values: HashMap<u32, u64>,
    log: Vec<Access>,
}

impl Msrs {
    fn new() -> Msrs {
        Msrs { values: HashMap::new(), log: Vec::new() }
    }

    fn run(&mut self, mut task: Task) -> u64 {
        while let Some(access) = task.pending() {
            self.log.push(access);
            let answer = match access {
                Access::MsrRead { index } => *self.values.get(&index).unwrap_or(&0),
                Access::MsrWrite { index, value } => {
                    self.values.insert(index, value);
                    0
                }
                other => panic!("not a model-specific register: {:?}", other),
            };
            task.supply(answer);
        }
        task.result()
    }
}

#[test]
fn register_indices_are_those_of_the_processor() {
    assert_eq!(apic::x2apic::IA32_APIC_BASE, x86::msr::IA32_APIC_BASE);
    assert_eq!(apic::x2apic::IA32_X2APIC_APICID, x86::msr::IA32_X2APIC_APICID);
    assert_eq!(apic::x2apic::IA32_X2APIC_VERSION, x86::msr::IA32_X2APIC_VERSION);
    assert_eq!(apic::x2apic::IA32_X2APIC_EOI, x86::msr::IA32_X2APIC_EOI);
    assert_eq!(apic::x2apic::IA32_X2APIC_SIVR, x86::msr::IA32_X2APIC_SIVR);
    assert_eq!(apic::x2apic::IA32_X2APIC_ICR, x86::msr::IA32_X2APIC_ICR);
}

#[test]
fn x2apic_cpu_init_switches_the_mode_on() {
    let mut apic = X2Apic::default();
    let mut task = apic.cpu_init();
    assert_eq!(task.pending(), Some(Access::MsrRead { index: 0x1b }));
    task.supply(0xfee0_0900);
    assert_eq!(task.pending(), Some(Access::MsrWrite { index: 0x1b, value: 0xfee0_0d00 }));
    task.supply(0);
    assert_eq!(task.pending(), Some(Access::MsrWrite { index: 0x80f, value: 0x100 }));
    task.supply(0);
    assert!(task.finished());
}

#[test]
fn x2apic_cpu_init_keeps_every_other_bit() {
    for read in [0u64, 0x400, u64::MAX, 0xffff_ffff_ffff_fbff, 0x8000_0000_0000_0001] {
        let mut apic = X2Apic;
        let mut task = apic.cpu_init();
        let asked = task.replay(&vec![read, 0, 0]);
        assert_eq!(
            asked,
            vec![
                Access::MsrRead { index: 0x1b },
                Access::MsrWrite { index: 0x1b, value: read | 0x400 },
                Access::MsrWrite { index: 0x80f, value: 0x100 },
            ]
        );
        assert!(task.finished());
    }
}

#[test]
fn x2apic_id_is_the_low_word() {
    let apic = X2Apic;
    let mut task = apic.id();
    assert_eq!(task.pending(), Some(Access::MsrRead { index: 0x802 }));
    task.supply(0xdead_beef_0000_0103);
    assert!(task.finished());
    assert_eq!(task.result(), 0x103);
}

#[test]
fn x2apic_version_is_the_low_word() {
    let apic = X2Apic;
    let mut task = apic.version();
    assert_eq!(task.pending(), Some(Access::MsrRead { index: 0x803 }));
    task.supply(0x1_0015_0014);
    assert!(task.finished());
    assert_eq!(task.result(), 0x0015_0014);
}

#[test]
fn x2apic_id_and_version_are_stable() {
    let apic = X2Apic;
    let mut msrs = Msrs::new();
    msrs.values.insert(0x802, 4);
    msrs.values.insert(0x803, 0x15);
    let before = msrs.values.clone();
    for _ in 0..10 {
        assert_eq!(msrs.run(apic.id()), 4);
        assert_eq!(msrs.run(apic.version()), 0x15);
    }
    assert_eq!(msrs.values, before);
    assert!(msrs.log.iter().all(|access| matches!(access, Access::MsrRead { .. })));
}

#[test]
fn x2apic_icr_is_the_whole_register() {
    let apic = X2Apic;
    let mut task = apic.icr();
    assert_eq!(task.pending(), Some(Access::MsrRead { index: 0x830 }));
    task.supply(0xffee_ddcc_bbaa_9988);
    assert!(task.finished());
    assert_eq!(task.result(), 0xffee_ddcc_bbaa_9988);
}

#[test]
fn x2apic_set_icr_is_one_write() {
    let mut apic = X2Apic;
    let mut task = apic.set_icr(0x0000_0007_0000_4040);
    let asked = task.replay(&vec![0x1000; 8]);
    assert_eq!(asked, vec![Access::MsrWrite { index: 0x830, value: 0x0000_0007_0000_4040 }]);
    assert!(task.finished());
}

#[test]
fn x2apic_set_icr_then_icr_returns_the_command() {
    for value in [0u64, 1, 0x1000, 0x0000_0003_0000_4040, u64::MAX] {
        let mut apic = X2Apic;
        let mut msrs = Msrs::new();
        msrs.run(apic.set_icr(value));
        assert_eq!(msrs.run(apic.icr()), value);
    }
}

#[test]
fn x2apic_eoi_writes_zero() {
    let mut apic = X2Apic;
    let mut task = apic.eoi();
    let asked = task.replay(&vec![0; 4]);
    assert_eq!(asked, vec![Access::MsrWrite { index: 0x80b, value: 0 }]);
    assert!(task.finished());
}

#[test]
fn x2apic_send_ipi_targets_every_identity() {
    for target in 0..=255u8 {
        let mut apic = X2Apic;
        let mut msrs = Msrs::new();
        msrs.run(apic.send_ipi(target));
        assert_eq!(msrs.log.len(), 1);
        let command = msrs.run(apic.icr());
        assert_eq!(command, (target as u64) << 32 | 0x4040);
        assert_eq!(command >> 32, target as u64);
    }
}

#[test]
fn x2apic_start_ap_fails_at_once() {
    let mut apic = X2Apic;
    let started = apic.start_ap(1, 0x8000);
    assert_eq!(started.err(), Some(ApicError::Unsupported));
    for target in [0u8, 7, 255] {
        assert!(matches!(apic.start_ap(target, 0), Err(ApicError::Unsupported)));
    }
}

#[test]
fn x2apic_supported_by_fails_closed() {
    assert!(!X2Apic::supported_by(None));
    assert!(X2Apic::supported_by(Some(CpuFeatures { apic: false, x2apic: true })));
    assert!(X2Apic::supported_by(Some(CpuFeatures { apic: true, x2apic: true })));
    assert!(!X2Apic::supported_by(Some(CpuFeatures { apic: true, x2apic: false })));
    assert!(!X2Apic::supported_by(Some(CpuFeatures { apic: false, x2apic: false })));
}
