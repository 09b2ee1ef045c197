//! The local APIC behind memory-mapped registers.

use vstd::prelude::*;
use crate::access::Access;
use crate::cpu::{query_features, CpuFeatures};
use crate::task::{Instr, Task, TaskView};
use crate::{ApicError, LocalApic, Op, Tid};

verus! {

/// Where the registers lie unless the machine was told otherwise.
pub const DEFAULT_BASE: usize = 0xfee0_0000;

/// The size in bytes of the window that the registers take up.
pub const REGISTER_SPACE: usize = 0x1000;

/// Offset of the identity register.
pub const ID: u32 = 0x20;

/// Offset of the version register.
pub const VERSION: u32 = 0x30;

/// Offset of the end-of-interrupt register.
pub const EOI: u32 = 0xb0;

/// Offset of the spurious-interrupt vector register.
pub const SPURIOUS: u32 = 0xf0;

/// Offset of the low word of the interrupt command register.
pub const ICR_LOW: u32 = 0x300;

/// Offset of the high word of the interrupt command register.
pub const ICR_HIGH: u32 = 0x310;

/// In the spurious-interrupt vector register: the controller is enabled.
pub const ENABLE: u32 = 0x100;

/// In the low command word: the previous command is still being delivered.
pub const DELIVERY_PENDING: u32 = 0x1000;

/// In the low command word: the vector and the assert flag of an IPI.
pub const IPI: u64 = 0x4040;

/// Delivery mode INIT.
pub const INIT: u32 = 0x500;

/// Delivery mode start-up.
pub const STARTUP: u32 = 0x600;

/// Assert the interrupt, where leaving the bit out de-asserts it.
pub const ASSERT: u32 = 0x4000;

/// Level triggered.
pub const LEVEL: u32 = 0x8000;

/// I/O port that selects a CMOS byte.
pub const CMOS_PORT: u16 = 0x70;

/// I/O port through which the selected CMOS byte is written.
pub const CMOS_RETURN: u16 = 0x71;

/// Index of the CMOS byte that holds the shutdown code.
pub const SHUTDOWN_CODE: u8 = 0xf;

/// Shutdown code that makes a core resume through the warm-reset vector.
pub const WARM_RESET: u8 = 0xa;

/// Physical address of the warm-reset vector: two 16-bit words, offset and
/// segment.
pub const WARM_RESET_VECTOR: usize = 0x467;

/// Microseconds to wait after INIT is asserted, and after each start-up IPI.
pub const SHORT_WAIT: usize = 200;

/// Microseconds to wait after INIT is de-asserted.
pub const LONG_WAIT: usize = 10000;

/// The address of the register at offset `reg` of a window at `base`.
pub open spec fn register(base: usize, reg: u32) -> usize {
    (base + reg) as usize
}

/// A register write: the store, and then the load of the identity register
/// that makes the store reach the controller before anything else is done.
pub open spec fn write_code(base: usize, reg: u32, value: u32) -> Seq<Instr> {
    seq![
        Instr::Issue(Access::Store { addr: register(base, reg), value }),
        Instr::Issue(Access::Load { addr: register(base, ID) }),
    ]
}

/// Waiting until the controller has delivered its last command.
pub open spec fn idle_code(base: usize) -> Seq<Instr> {
    seq![Instr::Await { addr: register(base, ICR_LOW), mask: DELIVERY_PENDING }]
}

/// The high word of a command, which addresses it.
pub open spec fn high_word(value: u64) -> u32 {
    (value >> 32) as u32
}

/// The low word of a command, which says what is sent.
pub open spec fn low_word(value: u64) -> u32 {
    value as u32
}

/// Issuing the command `value`: wait for the controller to be idle, write
/// the high word, write the low word, which sends the command, and wait
/// until it is delivered.
pub open spec fn command_code(base: usize, value: u64) -> Seq<Instr> {
    idle_code(base) + write_code(base, ICR_HIGH, high_word(value)) + write_code(
        base,
        ICR_LOW,
        low_word(value),
    ) + idle_code(base)
}

/// The command that interrupts the core `apic_id`.
pub open spec fn ipi_command(apic_id: Tid) -> u64 {
    IPI | (apic_id as u64) << 56
}

/// The high command word that addresses the core `apic_id`.
pub open spec fn target_word(apic_id: Tid) -> u32 {
    (apic_id as u32) << 24
}

/// Preparing the firmware for a warm reset: the shutdown code in CMOS, and
/// the warm-reset vector, whose offset word is zero and whose segment word
/// is the low word of `addr` shifted right by four.
pub open spec fn warm_reset_code(addr: u32) -> Seq<Instr> {
    seq![
        Instr::Issue(Access::PortOut { port: CMOS_PORT, value: SHUTDOWN_CODE }),
        Instr::Issue(Access::PortOut { port: CMOS_RETURN, value: WARM_RESET }),
        Instr::Issue(Access::StoreHalf { addr: WARM_RESET_VECTOR, value: 0 }),
        Instr::Issue(
            Access::StoreHalf { addr: (WARM_RESET_VECTOR + 2) as usize, value: (addr as u16) >> 4 },
        ),
    ]
}

/// Resetting the core `apic_id`: INIT asserted, a short wait, INIT
/// de-asserted, a long wait.
pub open spec fn init_code(base: usize, apic_id: Tid) -> Seq<Instr> {
    write_code(base, ICR_HIGH, target_word(apic_id)) + write_code(
        base,
        ICR_LOW,
        INIT | LEVEL | ASSERT,
    ) + seq![Instr::Issue(Access::Delay { micros: SHORT_WAIT })] + write_code(
        base,
        ICR_LOW,
        INIT | LEVEL,
    ) + seq![Instr::Issue(Access::Delay { micros: LONG_WAIT })]
}

/// One start-up IPI to the core `apic_id`, carrying the page number of
/// `addr`, and the short wait after it.
pub open spec fn startup_ipi_code(base: usize, apic_id: Tid, addr: u32) -> Seq<Instr> {
    write_code(base, ICR_HIGH, target_word(apic_id)) + write_code(
        base,
        ICR_LOW,
        STARTUP | (addr >> 12),
    ) + seq![Instr::Issue(Access::Delay { micros: SHORT_WAIT })]
}

/// The universal start-up algorithm: prepare the warm reset, reset the
/// core, and send the start-up IPI twice.
pub open spec fn startup_code(base: usize, apic_id: Tid, addr: u32) -> Seq<Instr> {
    warm_reset_code(addr) + init_code(base, apic_id) + startup_ipi_code(base, apic_id, addr)
        + startup_ipi_code(base, apic_id, addr)
}

/// The program by which a controller whose registers lie at `base` carries
/// out `op`.
pub open spec fn plan(base: usize, op: Op) -> Seq<Instr> {
    match op {
        Op::CpuInit => write_code(base, SPURIOUS, ENABLE),
        Op::Id => seq![
            Instr::Fetch { access: Access::Load { addr: register(base, ID) }, shift: 24, mask: 0xff },
        ],
        Op::Version => seq![
            Instr::Fetch {
                access: Access::Load { addr: register(base, VERSION) },
                shift: 0,
                mask: 0xffff_ffff,
            },
        ],
        Op::Icr => seq![
            Instr::Fetch {
                access: Access::Load { addr: register(base, ICR_HIGH) },
                shift: 0,
                mask: 0xffff_ffff,
            },
            Instr::Fetch {
                access: Access::Load { addr: register(base, ICR_LOW) },
                shift: 0,
                mask: 0xffff_ffff,
            },
        ],
        Op::SetIcr(value) => command_code(base, value),
        Op::Eoi => write_code(base, EOI, 0),
        Op::SendIpi(apic_id) => command_code(base, ipi_command(apic_id)),
        Op::StartAp(apic_id, addr) => startup_code(base, apic_id, addr),
    }
}

/// A local APIC whose registers are mapped into physical memory.
pub struct XApic {
    addr: usize,
}

impl XApic {
    #[verifier::type_invariant]
    spec fn mapped(&self) -> bool {
        self.addr + REGISTER_SPACE <= usize::MAX + 1
    }

    /// The physical address at which the registers begin.
    pub closed spec fn base(&self) -> usize {
        self.addr
    }

    /// A controller whose registers begin at the physical address `addr`.
    /// The whole register window must lie inside the address space.
    pub fn new(addr: usize) -> (apic: XApic)
        requires
            addr + REGISTER_SPACE <= usize::MAX + 1,
        ensures
            apic.base() == addr,
    {
        XApic { addr }
    }

    fn read(&self, reg: u32) -> (access: Access)
        requires
            reg < REGISTER_SPACE,
        ensures
            access == (Access::Load { addr: register(self.base(), reg) }),
    {
        proof {
            use_type_invariant(self);
        }
        Access::Load { addr: self.addr + reg as usize }
    }

    fn write(&self, code: &mut Vec<Instr>, reg: u32, value: u32)
        requires
            reg < REGISTER_SPACE,
        ensures
            final(code)@ == old(code)@ + write_code(self.base(), reg, value),
    {
        proof {
            use_type_invariant(self);
        }
        code.push(Instr::Issue(Access::Store { addr: self.addr + reg as usize, value }));
        code.push(Instr::Issue(self.read(ID)));
    }

    fn wait_idle(&self, code: &mut Vec<Instr>)
        ensures
            final(code)@ == old(code)@ + idle_code(self.base()),
    {
        proof {
            use_type_invariant(self);
        }
        code.push(Instr::Await { addr: self.addr + ICR_LOW as usize, mask: DELIVERY_PENDING });
    }

    fn fetch(&self, code: &mut Vec<Instr>, reg: u32, shift: u32, mask: u64)
        requires
            reg < REGISTER_SPACE,
        ensures
            final(code)@ == old(code)@.push(
                Instr::Fetch { access: Access::Load { addr: register(self.base(), reg) }, shift, mask },
            ),
    {
        code.push(Instr::Fetch { access: self.read(reg), shift, mask });
    }
}

impl Default for XApic {
    /// The controller at the address where the registers lie unless the
    /// machine was told otherwise.
    fn default() -> (apic: XApic)
        ensures
            apic.base() == DEFAULT_BASE,
    {
        XApic { addr: DEFAULT_BASE }
    }
}

impl LocalApic for XApic {
    open spec fn code(&self, op: Op) -> Seq<Instr> {
        plan(self.base(), op)
    }

    open spec fn starts_cores() -> bool {
        true
    }

    open spec fn ipi_command(apic_id: Tid) -> u64 {
        ipi_command(apic_id)
    }

    open spec fn destination(command: u64) -> u64 {
        command >> 56
    }

    open spec fn advertised(features: CpuFeatures) -> bool {
        features.apic
    }

    fn support() -> bool {
        Self::supported_by(query_features())
    }

    fn supported_by(features: Option<CpuFeatures>) -> (yes: bool) {
        match features {
            Some(flags) => flags.apic,
            None => false,
        }
    }

    fn cpu_init(&mut self) -> (task: Task) {
        let mut code: Vec<Instr> = Vec::new();
        self.write(&mut code, SPURIOUS, ENABLE);
        Task::new(code)
    }

    fn id(&self) -> (task: Task) {
        let mut code: Vec<Instr> = Vec::new();
        self.fetch(&mut code, ID, 24, 0xff);
        Task::new(code)
    }

    fn version(&self) -> (task: Task) {
        let mut code: Vec<Instr> = Vec::new();
        self.fetch(&mut code, VERSION, 0, 0xffff_ffff);
        Task::new(code)
    }

    fn icr(&self) -> (task: Task) {
        let mut code: Vec<Instr> = Vec::new();
        self.fetch(&mut code, ICR_HIGH, 0, 0xffff_ffff);
        self.fetch(&mut code, ICR_LOW, 0, 0xffff_ffff);
        assert(code@ =~= plan(self.base(), Op::Icr));
        Task::new(code)
    }

    fn set_icr(&mut self, value: u64) -> (task: Task) {
        let mut code: Vec<Instr> = Vec::new();
        self.wait_idle(&mut code);
        self.write(&mut code, ICR_HIGH, #[verifier::truncate] ((value >> 32) as u32));
        self.write(&mut code, ICR_LOW, #[verifier::truncate] (value as u32));
        self.wait_idle(&mut code);
        Task::new(code)
    }

    fn eoi(&mut self) -> (task: Task) {
        let mut code: Vec<Instr> = Vec::new();
        self.write(&mut code, EOI, 0);
        Task::new(code)
    }

    fn send_ipi(&mut self, apic_id: Tid) -> (task: Task) {
        self.set_icr(IPI | (apic_id as u64) << 56)
    }

    fn start_ap(&mut self, apic_id: Tid, addr: u32) -> (started: Result<Task, ApicError>) {
        let mut code: Vec<Instr> = Vec::new();
        // The shutdown code and the warm-reset vector must point the core at
        // its start-up code before the core is reset.
        code.push(Instr::Issue(Access::PortOut { port: CMOS_PORT, value: SHUTDOWN_CODE }));
        code.push(Instr::Issue(Access::PortOut { port: CMOS_RETURN, value: WARM_RESET }));
        code.push(Instr::Issue(Access::StoreHalf { addr: WARM_RESET_VECTOR, value: 0 }));
        code.push(
            Instr::Issue(
                Access::StoreHalf {
                    addr: WARM_RESET_VECTOR + 2,
                    value: (#[verifier::truncate] (addr as u16)) >> 4,
                },
            ),
        );

        // Send INIT, level triggered, to reset the other core.
        self.write(&mut code, ICR_HIGH, (apic_id as u32) << 24);
        self.write(&mut code, ICR_LOW, INIT | LEVEL | ASSERT);
        code.push(microdelay(SHORT_WAIT));
        self.write(&mut code, ICR_LOW, INIT | LEVEL);
        code.push(microdelay(LONG_WAIT));

        // Send the start-up IPI, twice. A core takes it only while halted
        // after an INIT, so the second should go unheard, but the algorithm
        // asks for both.
        let ghost reset = code@;
        let mut sent: usize = 0;
        while sent < 2
            invariant
                sent <= 2,
                *self == *old(self),
                code@ == reset + (if sent == 0 {
                    Seq::<Instr>::empty()
                } else if sent == 1 {
                    startup_ipi_code(self.base(), apic_id, addr)
                } else {
                    startup_ipi_code(self.base(), apic_id, addr) + startup_ipi_code(
                        self.base(),
                        apic_id,
                        addr,
                    )
                }),
            decreases 2 - sent,
        {
            self.write(&mut code, ICR_HIGH, (apic_id as u32) << 24);
            self.write(&mut code, ICR_LOW, STARTUP | (addr >> 12));
            code.push(microdelay(SHORT_WAIT));
            sent = sent + 1;
        }
        assert(code@ =~= startup_code(self.base(), apic_id, addr));
        Ok(Task::new(code))
    }

    proof fn reading_is_repeatable(&self, op: Op, first: Seq<u64>, second: Seq<u64>, n: nat) {
        TaskView::fresh(self.code(op)).lemma_after_stays_inside(first, n);
        TaskView::fresh(self.code(op)).lemma_same_answers_same_run(first, second, n);
    }

    proof fn ipi_goes_to_its_target(&self, apic_id: Tid) {
        assert((IPI | (apic_id as u64) << 56) >> 56 == apic_id as u64) by (bit_vector);
    }
}

/// The identity that the identity register holds when it reads `answer`:
/// its top byte.
pub open spec fn id_of(answer: u64) -> u32 {
    (answer as u32) >> 24
}

/// The accesses of the universal start-up algorithm, in the order in which
/// they are made.
pub open spec fn startup_accesses(base: usize, apic_id: Tid, addr: u32) -> Seq<Access> {
    seq![
        Access::PortOut { port: 0x70, value: 0xf },
        Access::PortOut { port: 0x71, value: 0xa },
        Access::StoreHalf { addr: 0x467, value: 0 },
        Access::StoreHalf { addr: 0x469, value: (addr as u16) >> 4 },
        Access::Store { addr: register(base, 0x310), value: (apic_id as u32) << 24 },
        Access::Load { addr: register(base, 0x20) },
        Access::Store { addr: register(base, 0x300), value: 0xc500 },
        Access::Load { addr: register(base, 0x20) },
        Access::Delay { micros: 200 },
        Access::Store { addr: register(base, 0x300), value: 0x8500 },
        Access::Load { addr: register(base, 0x20) },
        Access::Delay { micros: 10000 },
        Access::Store { addr: register(base, 0x310), value: (apic_id as u32) << 24 },
        Access::Load { addr: register(base, 0x20) },
        Access::Store { addr: register(base, 0x300), value: 0x600 | (addr >> 12) },
        Access::Load { addr: register(base, 0x20) },
        Access::Delay { micros: 200 },
        Access::Store { addr: register(base, 0x310), value: (apic_id as u32) << 24 },
        Access::Load { addr: register(base, 0x20) },
        Access::Store { addr: register(base, 0x300), value: 0x600 | (addr >> 12) },
        Access::Load { addr: register(base, 0x20) },
        Access::Delay { micros: 200 },
    ]
}

/// Whether the low command word `answer` says that a command is still
/// being delivered.
pub open spec fn busy(answer: u64) -> bool {
    answer & (DELIVERY_PENDING as u64) != 0
}

/// The identity is the top byte of what the identity register reads, and
/// the version is what the version register reads. Each takes one load.
pub proof fn lemma_identity_and_version(base: usize, answer: u64)
    ensures
        TaskView::fresh(plan(base, Op::Id)).after(seq![answer], 1) == (TaskView {
            code: plan(base, Op::Id),
            pc: 1,
            acc: id_of(answer) as u64,
        }),
        TaskView::fresh(plan(base, Op::Version)).after(seq![answer], 1) == (TaskView {
            code: plan(base, Op::Version),
            pc: 1,
            acc: (answer as u32) as u64,
        }),
{
    let id = TaskView::fresh(plan(base, Op::Id));
    let version = TaskView::fresh(plan(base, Op::Version));
    assert(id.after(seq![answer], 1) == id.after(seq![answer], 0).supply(answer));
    assert(version.after(seq![answer], 1) == version.after(seq![answer], 0).supply(answer));
    assert((0u64 << 32) | ((answer >> 24u32) & 0xff) == ((answer as u32) >> 24) as u64)
        by (bit_vector);
    assert((0u64 << 32) | ((answer >> 0u32) & 0xffff_ffff) == (answer as u32) as u64)
        by (bit_vector);
}

/// The command that interrupts a core holds the core's identity in the top
/// byte of its high word, where the start-up algorithm puts it too, and the
/// vector and the assert flag in its low word.
pub proof fn lemma_ipi_words(apic_id: Tid)
    ensures
        high_word(ipi_command(apic_id)) == target_word(apic_id),
        target_word(apic_id) >> 24 == apic_id,
        low_word(ipi_command(apic_id)) == 0x4040,
{
    assert(((IPI | (apic_id as u64) << 56) >> 32) as u32 == (apic_id as u32) << 24)
        by (bit_vector);
    assert(((apic_id as u32) << 24) >> 24 == apic_id as u32) by (bit_vector);
    assert((IPI | (apic_id as u64) << 56) as u32 == 0x4040) by (bit_vector);
}

/// What `set_icr` stores, `icr` reads back: the command stores its high
/// word in the high half of the register and its low word in the low half,
/// and where the two halves then read what was stored in them, reading the
/// register returns the command, bit for bit.
pub proof fn lemma_command_reads_back(base: usize, value: u64)
    ensures
        plan(base, Op::SetIcr(value))[1] == Instr::Issue(
            Access::Store { addr: register(base, ICR_HIGH), value: high_word(value) },
        ),
        plan(base, Op::SetIcr(value))[3] == Instr::Issue(
            Access::Store { addr: register(base, ICR_LOW), value: low_word(value) },
        ),
        plan(base, Op::Icr)[0].access(0) == (Access::Load { addr: register(base, ICR_HIGH) }),
        plan(base, Op::Icr)[1].access(0) == (Access::Load { addr: register(base, ICR_LOW) }),
        TaskView::fresh(plan(base, Op::Icr)).after(
            seq![high_word(value) as u64, low_word(value) as u64],
            2,
        ) == (TaskView { code: plan(base, Op::Icr), pc: 2, acc: value }),
{
    let answers = seq![high_word(value) as u64, low_word(value) as u64];
    let icr = TaskView::fresh(plan(base, Op::Icr));
    assert(icr.after(answers, 1) == icr.after(answers, 0).supply(answers[0]));
    let high = (value >> 32) as u32 as u64;
    let low = value as u32 as u64;
    assert((((0u64 << 32) | ((high >> 0u32) & 0xffff_ffff)) << 32) | ((low >> 0u32) & 0xffff_ffff)
        == value) by (bit_vector)
        requires
            high == (value >> 32) as u32 as u64,
            low == value as u32 as u64,
    ;
}

/// Every store to a register is followed by exactly one load of the
/// identity register before the task does anything else or finishes,
/// whatever the operation and whatever the machine answers.
pub proof fn lemma_store_then_flush(base: usize, op: Op, answers: Seq<u64>, n: nat)
    requires
        base + REGISTER_SPACE <= usize::MAX + 1,
        TaskView::fresh(plan(base, op)).asks(answers, n) is Some,
        TaskView::fresh(plan(base, op)).asks(answers, n)->Some_0 is Store,
    ensures
        TaskView::fresh(plan(base, op)).asks(answers, n + 1) == Some(
            Access::Load { addr: register(base, ID) },
        ),
        TaskView::fresh(plan(base, op)).asks(answers, n + 2) != Some(
            Access::Load { addr: register(base, ID) },
        ),
{
    let task = TaskView::fresh(plan(base, op));
    task.lemma_after_stays_inside(answers, n);
    assert(task.after(answers, n + 2) == task.after(answers, n + 1).supply(
        answers[n as int + 1],
    ));
}

/// `set_icr` writes nothing while a command is being delivered: for as
/// long as the low command word reads busy, however long that is, the task
/// does nothing but read it again.
pub proof fn lemma_command_holds_back(base: usize, value: u64, answers: Seq<u64>, reads: nat)
    requires
        forall|i: int| 0 <= i < reads ==> busy(#[trigger] answers[i]),
    ensures
        forall|n: nat|
            n <= reads ==> #[trigger] TaskView::fresh(command_code(base, value)).asks(answers, n)
                == Some(Access::Load { addr: register(base, ICR_LOW) }),
{
    let task = TaskView::fresh(command_code(base, value));
    assert forall|n: nat| n <= reads implies #[trigger] task.asks(answers, n) == Some(
        Access::Load { addr: register(base, ICR_LOW) },
    ) by {
        task.lemma_holds(answers, 0, n);
    }
}

/// `set_icr` does not return while its command is being delivered. Where
/// the low command word reads busy `before` times and then idle, the task
/// reads it `before + 1` times and only then writes the two command words,
/// each followed by its flush. For as long as the word then reads busy,
/// `behind` times, the task does nothing but read it again; it has finished
/// when the word has read idle, and not before.
pub proof fn lemma_command_waits_for_delivery(
    base: usize,
    value: u64,
    answers: Seq<u64>,
    before: nat,
    behind: nat,
)
    requires
        forall|i: int| 0 <= i < before ==> busy(#[trigger] answers[i]),
        !busy(answers[before as int]),
        forall|i: int| before + 5 <= i < before + 5 + behind ==> busy(#[trigger] answers[i]),
    ensures
        forall|n: nat|
            n <= before ==> #[trigger] TaskView::fresh(command_code(base, value)).asks(answers, n)
                == Some(Access::Load { addr: register(base, ICR_LOW) }),
        TaskView::fresh(command_code(base, value)).asks(answers, before + 1) == Some(
            Access::Store { addr: register(base, ICR_HIGH), value: high_word(value) },
        ),
        TaskView::fresh(command_code(base, value)).asks(answers, before + 2) == Some(
            Access::Load { addr: register(base, ID) },
        ),
        TaskView::fresh(command_code(base, value)).asks(answers, before + 3) == Some(
            Access::Store { addr: register(base, ICR_LOW), value: low_word(value) },
        ),
        TaskView::fresh(command_code(base, value)).asks(answers, before + 4) == Some(
            Access::Load { addr: register(base, ID) },
        ),
        forall|n: nat|
            before + 5 <= n <= before + 5 + behind ==> #[trigger] TaskView::fresh(
                command_code(base, value),
            ).asks(answers, n) == Some(Access::Load { addr: register(base, ICR_LOW) }),
        !busy(answers[(before + 5 + behind) as int]) ==> TaskView::fresh(
            command_code(base, value),
        ).asks(answers, before + 5 + behind + 1) is None,
{
    let task = TaskView::fresh(command_code(base, value));
    lemma_command_holds_back(base, value, answers, before);
    task.lemma_holds(answers, 0, before);
    assert forall|n: nat| before + 5 <= n <= before + 5 + behind implies #[trigger] task.asks(
        answers,
        n,
    ) == Some(Access::Load { addr: register(base, ICR_LOW) }) by {
        task.lemma_holds(answers, before + 5, (n - before - 5) as nat);
    }
    task.lemma_holds(answers, before + 5, behind);
}

/// Starting a core makes the accesses of the universal start-up algorithm,
/// each once and in their order, whatever the machine answers, and is then
/// finished.
pub proof fn lemma_startup_sequence(
    base: usize,
    apic_id: Tid,
    addr: u32,
    answers: Seq<u64>,
    n: nat,
)
    requires
        n <= 22,
    ensures
        startup_accesses(base, apic_id, addr).len() == 22,
        n < 22 ==> TaskView::fresh(startup_code(base, apic_id, addr)).asks(answers, n) == Some(
            startup_accesses(base, apic_id, addr)[n as int],
        ),
        n == 22 ==> TaskView::fresh(startup_code(base, apic_id, addr)).asks(answers, n) is None,
{
    assert(0x500u32 | 0x8000 | 0x4000 == 0xc500) by (bit_vector);
    assert(0x500u32 | 0x8000 == 0x8500) by (bit_vector);
    TaskView::lemma_issues_in_order(startup_code(base, apic_id, addr), answers, n);
}

/// The pause of `micros` microseconds, as an instruction.
pub fn microdelay(micros: usize) -> (pause: Instr)
    ensures
        pause == Instr::Issue(Access::Delay { micros }),
{
    Instr::Issue(Access::Delay { micros })
}

} // verus!
