use apic::{microdelay, Access, Instr, Task};

fn load(addr: usize) -> Access {
    Access::Load { addr }
}

#[test]
fn empty_task_is_finished() {
    let mut task = Task::new(Vec::new());
    assert!(task.finished());
    assert_eq!(task.pending(), None);
    assert_eq!(task.result(), 0);
    task.supply(55);
    assert!(task.finished());
    assert_eq!(task.result(), 0);
}

#[test]
fn issue_asks_once_and_ignores_the_answer() {
    let store = Access::Store { addr: 0x1000, value: 9 };
    let mut task = Task::new(vec![Instr::Issue(store), Instr::Issue(load(0x1004))]);
    assert!(!task.finished());
    assert_eq!(task.pending(), Some(store));
    task.supply(0xdead_beef);
    assert_eq!(task.pending(), Some(load(0x1004)));
    task.supply(0xffff_ffff_ffff_ffff);
    assert_eq!(task.pending(), None);
    assert!(task.finished());
    assert_eq!(task.result(), 0);
}

#[test]
fn fetch_takes_the_field_under_the_mask() {
    let mut task = Task::new(vec![Instr::Fetch { access: load(0x20), shift: 8, mask: 0xff }]);
    assert_eq!(task.pending(), Some(load(0x20)));
    task.supply(0x1234_5678);
    assert!(task.finished());
    assert_eq!(task.result(), 0x56);
}

#[test]
fn fetch_moves_gathered_words_up() {
    let fetch = |addr: usize| Instr::Fetch { access: load(addr), shift: 0, mask: 0xffff_ffff };
    let mut task = Task::new(vec![fetch(0x10), fetch(0x14)]);
    task.supply(0xaaaa_bbbb);
    assert_eq!(task.result(), 0xaaaa_bbbb);
    task.supply(0xcccc_dddd);
    assert_eq!(task.result(), 0xaaaa_bbbb_cccc_dddd);
}

#[test]
fn fetch_with_a_shift_past_the_word_takes_nothing() {
    let mut task = Task::new(vec![
        Instr::Fetch { access: Access::MsrRead { index: 1 }, shift: 64, mask: u64::MAX },
    ]);
    task.supply(u64::MAX);
    assert!(task.finished());
    assert_eq!(task.result(), 0);
}

#[test]
fn fetch_at_the_top_bit() {
    let mut task = Task::new(vec![
        Instr::Fetch { access: Access::MsrRead { index: 1 }, shift: 63, mask: u64::MAX },
    ]);
    task.supply(0x8000_0000_0000_0000);
    assert_eq!(task.result(), 1);
}

#[test]
fn await_repeats_while_a_mask_bit_is_set() {
    let mut task = Task::new(vec![Instr::Await { addr: 0x300, mask: 0x1000 }]);
    for _ in 0..5 {
        assert_eq!(task.pending(), Some(load(0x300)));
        task.supply(0x1000);
        assert!(!task.finished());
    }
    // Other bits do not hold the task back.
    task.supply(0xffff_efff);
    assert!(task.finished());
    assert_eq!(task.result(), 0);
}

#[test]
fn await_looks_at_the_low_word_only() {
    let mut task = Task::new(vec![Instr::Await { addr: 0x300, mask: 0xffff_ffff }]);
    task.supply(0xffff_ffff_0000_0000);
    assert!(task.finished());
}

#[test]
fn put_back_writes_the_accumulator_with_bits_set() {
    let mut task = Task::new(vec![
        Instr::Fetch { access: Access::MsrRead { index: 7 }, shift: 0, mask: u64::MAX },
        Instr::PutBack { index: 7, set: 0x0f },
    ]);
    assert_eq!(task.pending(), Some(Access::MsrRead { index: 7 }));
    task.supply(0x1230);
    assert_eq!(task.pending(), Some(Access::MsrWrite { index: 7, value: 0x123f }));
    task.supply(0);
    assert!(task.finished());
    assert_eq!(task.result(), 0x1230);
}

#[test]
fn replay_returns_what_was_asked() {
    let mut task = Task::new(vec![
        Instr::Await { addr: 0x300, mask: 1 },
        Instr::Issue(Access::Store { addr: 0x310, value: 4 }),
    ]);
    let asked = task.replay(&vec![1, 3, 0, 77]);
    assert_eq!(
        asked,
        vec![load(0x300), load(0x300), load(0x300), Access::Store { addr: 0x310, value: 4 }]
    );
    assert!(task.finished());
}

#[test]
fn replay_stops_when_the_task_has_finished() {
    let mut task = Task::new(vec![Instr::Issue(Access::Delay { micros: 3 })]);
    let asked = task.replay(&vec![0, 0, 0]);
    assert_eq!(asked, vec![Access::Delay { micros: 3 }]);
    assert!(task.finished());
}

#[test]
fn replay_stops_when_the_answers_run_out() {
    let mut task = Task::new(vec![Instr::Await { addr: 0x300, mask: 1 }]);
    let asked = task.replay(&vec![1, 1]);
    assert_eq!(asked, vec![load(0x300), load(0x300)]);
    assert!(!task.finished());
    assert_eq!(task.pending(), Some(load(0x300)));
    let none = task.replay(&Vec::new());
    assert!(none.is_empty());
    assert!(!task.finished());
}

#[test]
fn replay_can_be_taken_up_again() {
    let mut task = Task::new(vec![
        Instr::Issue(Access::PortOut { port: 0x70, value: 1 }),
        Instr::Issue(Access::PortOut { port: 0x71, value: 2 }),
    ]);
    assert_eq!(task.replay(&vec![0]), vec![Access::PortOut { port: 0x70, value: 1 }]);
    assert_eq!(task.replay(&vec![0]), vec![Access::PortOut { port: 0x71, value: 2 }]);
    assert!(task.finished());
}

#[test]
fn microdelay_is_a_pause() {
    assert_eq!(microdelay(200), Instr::Issue(Access::Delay { micros: 200 }));
    assert_eq!(microdelay(0), Instr::Issue(Access::Delay { micros: 0 }));
}
