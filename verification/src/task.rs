//! Controller operations as resumable programs.
//!
//! A [`Task`] holds a list of instructions, a position in it and an
//! accumulator. Its host asks which access is [`pending`](Task::pending),
//! performs it, and hands back what it returned with
//! [`supply`](Task::supply), until nothing is pending. The task alone decides
//! what is asked next: the host makes no decision of its own.

use vstd::prelude::*;
use crate::access::Access;

verus! {

/// One instruction of a task.
#[derive(Clone, Copy, Debug, PartialEq, Eq, Structural)]
#[allow(inconsistent_fields)]
pub enum Instr {
    /// Perform the access once; what it returns is not looked at.
    Issue(Access),
    /// Perform the read once. The accumulator is shifted left by one 32-bit
    /// word and or-ed with the answer shifted right by `shift` bits and cut
    /// to `mask`.
    Fetch { access: Access, shift: u32, mask: u64 },
    /// Load the 32-bit register at `addr` again and again, until an answer has
    /// none of the bits of `mask` set.
    Await { addr: usize, mask: u32 },
    /// Write the accumulator, with the bits of `set` switched on, to the
    /// model-specific register `index`.
    PutBack { index: u32, set: u64 },
}

/// `answer` shifted right by `shift` bits and cut to `mask`; zero where the
/// shift leaves nothing of it.
pub open spec fn field_of(answer: u64, shift: u32, mask: u64) -> u64 {
    if shift < 64 {
        (answer >> shift) & mask
    } else {
        0
    }
}

impl Instr {
    /// The access that the instruction asks for while the accumulator holds `acc`.
    pub open spec fn access(self, acc: u64) -> Access {
        match self {
            Instr::Issue(access) => access,
            Instr::Fetch { access, .. } => access,
            Instr::Await { addr, .. } => Access::Load { addr },
            Instr::PutBack { index, set } => Access::MsrWrite { index, value: acc | set },
        }
    }

    /// Whether the instruction asks for its access once more after `answer`.
    pub open spec fn repeats(self, answer: u64) -> bool {
        self matches Instr::Await { mask, .. } && answer & (mask as u64) != 0
    }

    /// The accumulator after `answer`, where it held `acc` before.
    pub open spec fn gather(self, acc: u64, answer: u64) -> u64 {
        match self {
            Instr::Fetch { shift, mask, .. } => (acc << 32) | field_of(answer, shift, mask),
            _ => acc,
        }
    }
}

/// What a [`Task`] is to its host: the instructions, how many of them are
/// done with, and the accumulator.
pub struct TaskView {
    pub code: Seq<Instr>,
    pub pc: nat,
    pub acc: u64,
}

impl TaskView {
    /// The task that has `code` before it and an empty accumulator.
    pub open spec fn fresh(code: Seq<Instr>) -> TaskView {
        TaskView { code, pc: 0, acc: 0 }
    }

    /// Whether every instruction is done with.
    pub open spec fn finished(self) -> bool {
        self.pc >= self.code.len()
    }

    /// The access that the host is to perform next; none once the task has
    /// finished.
    pub open spec fn pending(self) -> Option<Access> {
        if self.finished() {
            None
        } else {
            Some(self.code[self.pc as int].access(self.acc))
        }
    }

    /// The task after the pending access has returned `answer`. A finished
    /// task stays as it is.
    pub open spec fn supply(self, answer: u64) -> TaskView {
        if self.finished() {
            self
        } else {
            let instr = self.code[self.pc as int];
            TaskView {
                code: self.code,
                pc: if instr.repeats(answer) {
                    self.pc
                } else {
                    self.pc + 1
                },
                acc: instr.gather(self.acc, answer),
            }
        }
    }

    /// The task after its first `n` accesses have returned `answers[0]`,
    /// ..., `answers[n - 1]`.
    pub open spec fn after(self, answers: Seq<u64>, n: nat) -> TaskView
        decreases n,
    {
        if n == 0 {
            self
        } else {
            self.after(answers, (n - 1) as nat).supply(answers[n - 1])
        }
    }

    /// The access that the task asks for once `n` answers are in.
    pub open spec fn asks(self, answers: Seq<u64>, n: nat) -> Option<Access> {
        self.after(answers, n).pending()
    }

    /// Whether the position lies inside the code or at its end.
    pub open spec fn wf(self) -> bool {
        self.pc <= self.code.len()
    }

    /// Answers move a task forward through its own code and never past the
    /// end of it.
    pub proof fn lemma_after_stays_inside(self, answers: Seq<u64>, n: nat)
        requires
            self.wf(),
        ensures
            self.after(answers, n).code == self.code,
            self.pc <= self.after(answers, n).pc <= self.code.len(),
        decreases n,
    {
        if n > 0 {
            self.lemma_after_stays_inside(answers, (n - 1) as nat);
        }
    }

    /// What a task does depends on the answers it was given so far and on
    /// nothing else.
    pub proof fn lemma_same_answers_same_run(self, first: Seq<u64>, second: Seq<u64>, n: nat)
        requires
            forall|i: int| 0 <= i < n ==> first[i] == second[i],
        ensures
            self.after(first, n) == self.after(second, n),
        decreases n,
    {
        if n > 0 {
            self.lemma_same_answers_same_run(first, second, (n - 1) as nat);
        }
    }

    /// Where the task stands, after `n` answers, before `k` instructions of
    /// which none is an `Await`, the next `k` answers take it past them,
    /// whatever they are. Where none of them is a `Fetch` either, the
    /// accumulator stays as it was.
    pub proof fn lemma_passes(self, answers: Seq<u64>, n: nat, k: nat)
        requires
            self.wf(),
            self.after(answers, n).pc + k <= self.code.len(),
            forall|i: int|
                self.after(answers, n).pc <= i < self.after(answers, n).pc + k ==> !(
                #[trigger] self.code[i] is Await),
        ensures
            self.after(answers, n + k).pc == self.after(answers, n).pc + k,
            (forall|i: int|
                self.after(answers, n).pc <= i < self.after(answers, n).pc + k ==> !(
                #[trigger] self.code[i] is Fetch)) ==> self.after(answers, n + k).acc
                == self.after(answers, n).acc,
        decreases k,
    {
        if k > 0 {
            self.lemma_passes(answers, n, (k - 1) as nat);
            self.lemma_after_stays_inside(answers, (n + k - 1) as nat);
        }
    }

    /// Where the task stands, after `n` answers, before an `Await`, it stays
    /// there for as long as the answers have a bit of the mask set.
    pub proof fn lemma_holds(self, answers: Seq<u64>, n: nat, k: nat)
        requires
            self.wf(),
            !self.after(answers, n).finished(),
            self.code[self.after(answers, n).pc as int] is Await,
            forall|j: int|
                n <= j < n + k ==> self.code[self.after(answers, n).pc as int].repeats(
                    #[trigger] answers[j],
                ),
        ensures
            self.after(answers, n + k) == self.after(answers, n),
        decreases k,
    {
        self.lemma_after_stays_inside(answers, n);
        if k > 0 {
            self.lemma_holds(answers, n, (k - 1) as nat);
        }
    }

    /// A task made of `Issue` instructions alone asks for their accesses in
    /// order, one each, whatever it is answered, and is then finished.
    pub proof fn lemma_issues_in_order(code: Seq<Instr>, answers: Seq<u64>, n: nat)
        requires
            forall|i: int| 0 <= i < code.len() ==> #[trigger] code[i] is Issue,
            n <= code.len(),
        ensures
            Self::fresh(code).after(answers, n) == (TaskView { code, pc: n, acc: 0 }),
            n < code.len() ==> Self::fresh(code).asks(answers, n) == Some(code[n as int]->Issue_0),
            n == code.len() ==> Self::fresh(code).asks(answers, n).is_none(),
    {
        let fresh = Self::fresh(code);
        fresh.lemma_passes(answers, 0, n);
        fresh.lemma_after_stays_inside(answers, n);
    }
}

/// A controller operation in progress.
#[derive(Debug)]
pub struct Task {
    code: Vec<Instr>,
    pc: usize,
    acc: u64,
}

impl View for Task {
    type V = TaskView;

    closed spec fn view(&self) -> TaskView {
        TaskView { code: self.code@, pc: self.pc as nat, acc: self.acc }
    }
}

impl Task {
    #[verifier::type_invariant]
    spec fn inside(&self) -> bool {
        self.pc <= self.code.len()
    }

    /// Starts a task on `code`.
    pub fn new(code: Vec<Instr>) -> (task: Task)
        ensures
            task@ == TaskView::fresh(code@),
    {
        Task { code, pc: 0, acc: 0 }
    }

    /// The access that the host is to perform next, or `None` once the task
    /// has finished.
    pub fn pending(&self) -> (access: Option<Access>)
        ensures
            access == self@.pending(),
            self@.wf(),
    {
        proof {
            use_type_invariant(self);
        }
        if self.pc < self.code.len() {
            Some(
                match self.code[self.pc] {
                    Instr::Issue(access) => access,
                    Instr::Fetch { access, .. } => access,
                    Instr::Await { addr, .. } => Access::Load { addr },
                    Instr::PutBack { index, set } => Access::MsrWrite {
                        index,
                        value: self.acc | set,
                    },
                },
            )
        } else {
            None
        }
    }

    /// Hands the task what the pending access returned. For an access that
    /// returns nothing any `answer` will do. A finished task ignores the call.
    pub fn supply(&mut self, answer: u64)
        ensures
            final(self)@ == old(self)@.supply(answer),
    {
        if self.pc < self.code.len() {
            match self.code[self.pc] {
                Instr::Fetch { shift, mask, .. } => {
                    let field: u64 = if shift < 64 {
                        (answer >> shift) & mask
                    } else {
                        0
                    };
                    self.acc = (self.acc << 32) | field;
                    self.pc = self.pc + 1;
                },
                Instr::Await { mask, .. } => {
                    if answer & (mask as u64) == 0 {
                        self.pc = self.pc + 1;
                    }
                },
                _ => {
                    self.pc = self.pc + 1;
                },
            }
        }
    }

    /// Runs the task on recorded answers: each pending access is noted and
    /// answered with the next of `answers`, until the task has finished or
    /// the answers have run out. Returns the accesses in the order in which
    /// the task asked for them.
    pub fn replay(&mut self, answers: &Vec<u64>) -> (asked: Vec<Access>)
        ensures
            asked@.len() <= answers@.len(),
            forall|i: int|
                0 <= i < asked@.len() ==> old(self)@.asks(answers@, i as nat) == Some(
                    #[trigger] asked@[i],
                ),
            final(self)@ == old(self)@.after(answers@, asked@.len()),
            asked@.len() < answers@.len() ==> final(self)@.finished(),
    {
        let mut asked: Vec<Access> = Vec::new();
        let mut next: usize = 0;
        while next < answers.len()
            invariant
                next == asked@.len(),
                next <= answers@.len(),
                forall|i: int|
                    0 <= i < asked@.len() ==> old(self)@.asks(answers@, i as nat) == Some(
                        #[trigger] asked@[i],
                    ),
                self@ == old(self)@.after(answers@, next as nat),
            decreases answers@.len() - next,
        {
            match self.pending() {
                Some(access) => {
                    asked.push(access);
                    self.supply(answers[next]);
                    next = next + 1;
                },
                None => {
                    return asked;
                },
            }
        }
        asked
    }

    /// Whether the task has finished.
    pub fn finished(&self) -> (done: bool)
        ensures
            done == self@.finished(),
    {
        self.pc >= self.code.len()
    }

    /// The accumulator: once the task has finished, what the operation
    /// returns.
    pub fn result(&self) -> (value: u64)
        ensures
            value == self@.acc,
    {
        self.acc
    }
}

} // verus!
