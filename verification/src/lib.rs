//! Local APIC control for x86 multiprocessor kernels.
//!
//! Two kinds of controller are driven through one interface, [`LocalApic`]:
//! [`XApic`], whose registers are mapped into memory, and [`X2Apic`], whose
//! registers are model-specific registers of the processor.
//!
//! The library never touches the machine itself. Every operation is a
//! [`Task`]: a short program that names, one at a time, the register, memory
//! or I/O accesses that its host must perform, and takes back what each one
//! returned. The kernel runs the task on the real machine, a test on a
//! recorded one:
//!
//! ```text
//! let mut task = apic.set_icr(command);
//! while let Some(access) = task.pending() {
//!     task.supply(machine.perform(access));
//! }
//! ```
//!
//! Which access comes next, with which address and value, and when an
//! operation is over, is decided here and nowhere else, and what is decided
//! is proved: each operation's contract gives its program, and the lemmas
//! beside it say what that program does on every machine.

use vstd::prelude::*;

pub mod access;
pub mod cpu;
pub mod task;
pub mod x2apic;
pub mod xapic;

pub use access::Access;
pub use cpu::CpuFeatures;
pub use task::{Instr, Task, TaskView};
pub use x2apic::X2Apic;
pub use xapic::{microdelay, XApic};

verus! {

/// The identity of a local APIC, and so of its core.
pub type Tid = u8;

/// Why an operation was not started.
#[derive(Clone, Copy, Debug, PartialEq, Eq, Structural)]
pub enum ApicError {
    /// This kind of controller cannot carry out the operation.
    Unsupported,
}

/// The operations of a local APIC.
#[derive(Clone, Copy, Debug, PartialEq, Eq, Structural)]
pub enum Op {
    /// Enable the controller on this core and set the spurious-interrupt
    /// vector.
    CpuInit,
    /// Read this core's identity.
    Id,
    /// Read the controller's version.
    Version,
    /// Read the interrupt command register.
    Icr,
    /// Issue an interrupt command.
    SetIcr(u64),
    /// Signal the end of the interrupt in service.
    Eoi,
    /// Interrupt the core with the given identity.
    SendIpi(Tid),
    /// Reset the core with the given identity and start it at an address.
    StartAp(Tid, u32),
}

/// A local APIC, whichever way its registers are reached.
///
/// Each operation hands back the [`Task`] that carries it out; none touches
/// the machine. The handle itself never changes.
pub trait LocalApic: Sized {
    /// The program by which this controller carries out `op`.
    spec fn code(&self, op: Op) -> Seq<Instr>;

    /// Whether this kind of controller can start other cores.
    spec fn starts_cores() -> bool;

    /// The interrupt command that `send_ipi` issues for the core `apic_id`.
    spec fn ipi_command(apic_id: Tid) -> u64;

    /// The identity of the core that the interrupt command `command` goes to.
    spec fn destination(command: u64) -> u64;

    /// Whether a processor with these flags has this kind of controller.
    spec fn advertised(features: CpuFeatures) -> bool;

    /// Whether the processor this runs on has this kind of controller.
    /// A processor that cannot be asked counts as having none.
    fn support() -> bool;

    /// Whether a processor that answered `features` to the feature query has
    /// this kind of controller; `None` stands for a processor that could not
    /// be asked, and counts as having none.
    fn supported_by(features: Option<CpuFeatures>) -> (yes: bool)
        ensures
            yes <==> (features matches Some(flags) && Self::advertised(flags)),
    ;

    /// Initialize the LAPIC for the current CPU.
    fn cpu_init(&mut self) -> (task: Task)
        ensures
            task@ == TaskView::fresh(old(self).code(Op::CpuInit)),
            *final(self) == *old(self),
    ;

    /// Read this CPU's LAPIC ID. The finished task's result is the identity.
    fn id(&self) -> (task: Task)
        ensures
            task@ == TaskView::fresh(self.code(Op::Id)),
    ;

    /// Read the controller's version. The finished task's result is the
    /// version.
    fn version(&self) -> (task: Task)
        ensures
            task@ == TaskView::fresh(self.code(Op::Version)),
    ;

    /// Read the interrupt command register. The finished task's result is
    /// its value.
    fn icr(&self) -> (task: Task)
        ensures
            task@ == TaskView::fresh(self.code(Op::Icr)),
    ;

    /// Issue the interrupt command `value`.
    fn set_icr(&mut self, value: u64) -> (task: Task)
        ensures
            task@ == TaskView::fresh(old(self).code(Op::SetIcr(value))),
            *final(self) == *old(self),
    ;

    /// Acknowledge interrupt on the current CPU.
    fn eoi(&mut self) -> (task: Task)
        ensures
            task@ == TaskView::fresh(old(self).code(Op::Eoi)),
            *final(self) == *old(self),
    ;

    /// Send an IPI to a remote CPU.
    fn send_ipi(&mut self, apic_id: Tid) -> (task: Task)
        ensures
            task@ == TaskView::fresh(old(self).code(Op::SendIpi(apic_id))),
            *final(self) == *old(self),
    ;

    /// Start an AP at the entry point `addr`, which must be 4K aligned.
    /// Fails at once with [`ApicError::Unsupported`] on a controller that
    /// cannot start cores.
    fn start_ap(&mut self, apic_id: Tid, addr: u32) -> (started: Result<Task, ApicError>)
        requires
            addr % 4096 == 0,
        ensures
            Self::starts_cores() ==> (started matches Ok(task) && task@ == TaskView::fresh(
                old(self).code(Op::StartAp(apic_id, addr)),
            )),
            !Self::starts_cores() ==> (started matches Err(e) && e == ApicError::Unsupported),
            *final(self) == *old(self),
    ;

    /// Reading the identity, the version or the command register can be
    /// repeated. It asks the machine for reads and for nothing else, so it
    /// changes nothing there; and two readings whose reads are answered
    /// alike go alike and return the same value.
    proof fn reading_is_repeatable(&self, op: Op, first: Seq<u64>, second: Seq<u64>, n: nat)
        requires
            op is Id || op is Version || op is Icr,
            forall|i: int| 0 <= i < n ==> first[i] == second[i],
        ensures
            TaskView::fresh(self.code(op)).asks(first, n) matches Some(access)
                ==> access.is_read(),
            TaskView::fresh(self.code(op)).after(first, n) == TaskView::fresh(
                self.code(op),
            ).after(second, n),
    ;

    /// Sending an IPI is issuing the command that `ipi_command` composes, and
    /// that command goes to the core it was composed for.
    proof fn ipi_goes_to_its_target(&self, apic_id: Tid)
        ensures
            self.code(Op::SendIpi(apic_id)) == self.code(Op::SetIcr(Self::ipi_command(apic_id))),
            Self::destination(Self::ipi_command(apic_id)) == apic_id,
    ;
}

} // verus!
