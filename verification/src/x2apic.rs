//! The local APIC behind model-specific registers.

use vstd::prelude::*;
use crate::access::Access;
use crate::cpu::{query_features, CpuFeatures};
use crate::task::{Instr, Task, TaskView};
use crate::{ApicError, LocalApic, Op, Tid};

verus! {

/// Index of the register that holds the controller's base and mode.
pub const IA32_APIC_BASE: u32 = 0x1b;

/// Index of the identity register.
pub const IA32_X2APIC_APICID: u32 = 0x802;

/// Index of the version register.
pub const IA32_X2APIC_VERSION: u32 = 0x803;

/// Index of the end-of-interrupt register.
pub const IA32_X2APIC_EOI: u32 = 0x80b;

/// Index of the spurious-interrupt vector register.
pub const IA32_X2APIC_SIVR: u32 = 0x80f;

/// Index of the interrupt command register.
pub const IA32_X2APIC_ICR: u32 = 0x830;

/// In `IA32_APIC_BASE`: the controller is driven through model-specific
/// registers.
pub const X2APIC_MODE: u64 = 0x400;

/// In the spurious-interrupt vector register: the controller is enabled.
pub const ENABLE: u64 = 0x100;

/// In the low command word: the vector and the assert flag of an IPI.
pub const IPI: u64 = 0x4040;

/// The command that interrupts the core `apic_id`.
pub open spec fn ipi_command(apic_id: Tid) -> u64 {
    (apic_id as u64) << 32 | IPI
}

/// Reading the low 32 bits of the register `index`.
pub open spec fn word_code(index: u32) -> Seq<Instr> {
    seq![Instr::Fetch { access: Access::MsrRead { index }, shift: 0, mask: 0xffff_ffff }]
}

/// The program by which the controller carries out `op`. It has none for
/// starting a core.
pub open spec fn plan(op: Op) -> Seq<Instr> {
    match op {
        Op::CpuInit => seq![
            Instr::Fetch {
                access: Access::MsrRead { index: IA32_APIC_BASE },
                shift: 0,
                mask: u64::MAX,
            },
            Instr::PutBack { index: IA32_APIC_BASE, set: X2APIC_MODE },
            Instr::Issue(Access::MsrWrite { index: IA32_X2APIC_SIVR, value: ENABLE }),
        ],
        Op::Id => word_code(IA32_X2APIC_APICID),
        Op::Version => word_code(IA32_X2APIC_VERSION),
        Op::Icr => seq![
            Instr::Fetch {
                access: Access::MsrRead { index: IA32_X2APIC_ICR },
                shift: 0,
                mask: u64::MAX,
            },
        ],
        Op::SetIcr(value) => seq![
            Instr::Issue(Access::MsrWrite { index: IA32_X2APIC_ICR, value }),
        ],
        Op::Eoi => seq![Instr::Issue(Access::MsrWrite { index: IA32_X2APIC_EOI, value: 0 })],
        Op::SendIpi(apic_id) => seq![
            Instr::Issue(Access::MsrWrite { index: IA32_X2APIC_ICR, value: ipi_command(apic_id) }),
        ],
        Op::StartAp(_, _) => Seq::empty(),
    }
}

/// A local APIC that is driven through model-specific registers. The
/// register indices are fixed, so the handle holds nothing.
pub struct X2Apic;

impl X2Apic {
    fn word(index: u32) -> (task: Task)
        ensures
            task@ == TaskView::fresh(word_code(index)),
    {
        let mut code: Vec<Instr> = Vec::new();
        code.push(Instr::Fetch { access: Access::MsrRead { index }, shift: 0, mask: 0xffff_ffff });
        Task::new(code)
    }

    fn wrmsr(index: u32, value: u64) -> (task: Task)
        ensures
            task@ == TaskView::fresh(seq![Instr::Issue(Access::MsrWrite { index, value })]),
    {
        let mut code: Vec<Instr> = Vec::new();
        code.push(Instr::Issue(Access::MsrWrite { index, value }));
        Task::new(code)
    }
}

impl Default for X2Apic {
    fn default() -> (apic: X2Apic)
        ensures
            apic == X2Apic,
    {
        X2Apic
    }
}

impl LocalApic for X2Apic {
    open spec fn code(&self, op: Op) -> Seq<Instr> {
        plan(op)
    }

    open spec fn starts_cores() -> bool {
        false
    }

    open spec fn ipi_command(apic_id: Tid) -> u64 {
        ipi_command(apic_id)
    }

    open spec fn destination(command: u64) -> u64 {
        command >> 32
    }

    open spec fn advertised(features: CpuFeatures) -> bool {
        features.x2apic
    }

    fn support() -> bool {
        Self::supported_by(query_features())
    }

    fn supported_by(features: Option<CpuFeatures>) -> (yes: bool) {
        match features {
            Some(flags) => flags.x2apic,
            None => false,
        }
    }

    fn cpu_init(&mut self) -> (task: Task) {
        let mut code: Vec<Instr> = Vec::new();
        code.push(
            Instr::Fetch {
                access: Access::MsrRead { index: IA32_APIC_BASE },
                shift: 0,
                mask: u64::MAX,
            },
        );
        code.push(Instr::PutBack { index: IA32_APIC_BASE, set: X2APIC_MODE });
        code.push(Instr::Issue(Access::MsrWrite { index: IA32_X2APIC_SIVR, value: ENABLE }));
        assert(code@ =~= plan(Op::CpuInit));
        Task::new(code)
    }

    fn id(&self) -> (task: Task) {
        Self::word(IA32_X2APIC_APICID)
    }

    fn version(&self) -> (task: Task) {
        Self::word(IA32_X2APIC_VERSION)
    }

    fn icr(&self) -> (task: Task) {
        let mut code: Vec<Instr> = Vec::new();
        code.push(
            Instr::Fetch {
                access: Access::MsrRead { index: IA32_X2APIC_ICR },
                shift: 0,
                mask: u64::MAX,
            },
        );
        Task::new(code)
    }

    fn set_icr(&mut self, value: u64) -> (task: Task) {
        Self::wrmsr(IA32_X2APIC_ICR, value)
    }

    fn eoi(&mut self) -> (task: Task) {
        Self::wrmsr(IA32_X2APIC_EOI, 0)
    }

    fn send_ipi(&mut self, apic_id: Tid) -> (task: Task) {
        self.set_icr((apic_id as u64) << 32 | IPI)
    }

    fn start_ap(&mut self, apic_id: Tid, addr: u32) -> (started: Result<Task, ApicError>) {
        Err(ApicError::Unsupported)
    }

    proof fn reading_is_repeatable(&self, op: Op, first: Seq<u64>, second: Seq<u64>, n: nat) {
        TaskView::fresh(self.code(op)).lemma_after_stays_inside(first, n);
        TaskView::fresh(self.code(op)).lemma_same_answers_same_run(first, second, n);
    }

    proof fn ipi_goes_to_its_target(&self, apic_id: Tid) {
        assert(((apic_id as u64) << 32 | IPI) >> 32 == apic_id as u64) by (bit_vector);
    }
}

/// Initializing reads `IA32_APIC_BASE`, writes it back with the mode bit
/// switched on and every other bit as it was read, and then enables the
/// controller in the spurious-interrupt vector register.
pub proof fn lemma_init_sets_the_mode_bit(answers: Seq<u64>)
    ensures
        TaskView::fresh(plan(Op::CpuInit)).asks(answers, 0) == Some(
            Access::MsrRead { index: 0x1b },
        ),
        TaskView::fresh(plan(Op::CpuInit)).asks(answers, 1) == Some(
            Access::MsrWrite { index: 0x1b, value: answers[0] | 0x400 },
        ),
        TaskView::fresh(plan(Op::CpuInit)).asks(answers, 2) == Some(
            Access::MsrWrite { index: 0x80f, value: 0x100 },
        ),
        TaskView::fresh(plan(Op::CpuInit)).asks(answers, 3) is None,
{
    let read = answers[0];
    assert((0u64 << 32) | ((read >> 0u32) & 0xffff_ffff_ffff_ffff) == read) by (bit_vector);
}

/// The identity and the version are the low 32 bits of what their
/// registers read. Each takes one read.
pub proof fn lemma_identity_and_version(answer: u64)
    ensures
        TaskView::fresh(plan(Op::Id)).asks(seq![answer], 0) == Some(
            Access::MsrRead { index: 0x802 },
        ),
        TaskView::fresh(plan(Op::Id)).after(seq![answer], 1) == (TaskView {
            code: plan(Op::Id),
            pc: 1,
            acc: (answer as u32) as u64,
        }),
        TaskView::fresh(plan(Op::Version)).asks(seq![answer], 0) == Some(
            Access::MsrRead { index: 0x803 },
        ),
        TaskView::fresh(plan(Op::Version)).after(seq![answer], 1) == (TaskView {
            code: plan(Op::Version),
            pc: 1,
            acc: (answer as u32) as u64,
        }),
{
    assert((0u64 << 32) | ((answer >> 0u32) & 0xffff_ffff) == (answer as u32) as u64)
        by (bit_vector);
}

/// What `set_icr` writes, `icr` reads back: the command is one write of the
/// whole value to the command register, with no waiting, and where the
/// register then reads what was written, reading it returns the command,
/// bit for bit.
pub proof fn lemma_command_reads_back(value: u64, answers: Seq<u64>)
    ensures
        TaskView::fresh(plan(Op::SetIcr(value))).asks(answers, 0) == Some(
            Access::MsrWrite { index: 0x830, value },
        ),
        TaskView::fresh(plan(Op::SetIcr(value))).asks(answers, 1) is None,
        TaskView::fresh(plan(Op::Icr)).asks(seq![value], 0) == Some(
            Access::MsrRead { index: 0x830 },
        ),
        TaskView::fresh(plan(Op::Icr)).after(seq![value], 1) == (TaskView {
            code: plan(Op::Icr),
            pc: 1,
            acc: value,
        }),
{
    assert((0u64 << 32) | ((value >> 0u32) & 0xffff_ffff_ffff_ffff) == value) by (bit_vector);
}

/// The command that interrupts a core holds the core's identity in its
/// high word and the vector and the assert flag in its low word.
pub proof fn lemma_ipi_words(apic_id: Tid)
    ensures
        ipi_command(apic_id) >> 32 == apic_id,
        ipi_command(apic_id) & 0xffff_ffff == 0x4040,
{
    assert(((apic_id as u64) << 32 | IPI) >> 32 == apic_id as u64) by (bit_vector);
    assert(((apic_id as u64) << 32 | IPI) & 0xffff_ffff == 0x4040) by (bit_vector);
}

} // verus!
