use vmm_devices::future_slab::{
    slot_bit, slot_chunk, FutureSlab, Sweep, SweepStep, CHUNK, MAX_SWEEPS,
};

/// Tasks in a slab, with what wakes them: the task of a slot says whether it is
/// done, and may set its own ready bit.
struct Tasks {
    slab: FutureSlab,
    ready: Vec<u64>,
}

impl Tasks {
    fn new() -> Tasks {
        Tasks {
            slab: FutureSlab::new(),
            ready: Vec::new(),
        }
    }

    fn push(&mut self) -> usize {
        let slot = self.slab.push();
        self.ready.resize(self.slab.num_chunks(), 0);
        self.wake(slot);
        slot
    }

    fn wake(&mut self, slot: usize) {
        self.ready[slot_chunk(slot)] |= slot_bit(slot);
    }

    /// Polls the tasks. `task` returns whether the task of a slot is done, and
    /// whether it woke itself.
    fn poll(&mut self, task: &mut dyn FnMut(usize) -> (bool, bool)) -> SweepStep {
        let mut sweep = Sweep::new();
        loop {
            match sweep.next(self.slab.num_chunks()) {
                SweepStep::TakeReady(chunk) => {
                    let ready = std::mem::take(&mut self.ready[chunk]);
                    sweep.took(ready);
                }
                SweepStep::Poll(slot) => {
                    if self.slab.is_occupied(slot) {
                        let (done, woken) = task(slot);
                        if woken {
                            self.wake(slot);
                        }
                        if done {
                            self.slab.complete(slot);
                        }
                    }
                }
                end => return end,
            }
        }
    }
}

#[test]
fn runs_ready_futures() {
    let mut count = 0;
    let mut tasks = Tasks::new();
    for _ in 0..200 {
        tasks.push();
    }
    assert_eq!(tasks.slab.len(), 200);
    let end = tasks.poll(&mut |_| {
        count += 1;
        (true, false)
    });
    assert_eq!(end, SweepStep::Finished);
    assert_eq!(count, 200);
    assert!(tasks.slab.is_empty());
}

#[test]
fn wakes_parent_when_a_future_completes() {
    let mut done = false;
    let mut tasks = Tasks::new();
    let slot = tasks.push();
    // The task waits, so the slab must report it as still outstanding.
    assert_eq!(tasks.poll(&mut |_| (false, false)), SweepStep::Finished);
    assert_eq!(tasks.slab.len(), 1);
    assert!(!done);

    tasks.wake(slot);
    tasks.poll(&mut |s| {
        done = s == slot;
        (true, false)
    });
    assert!(done);
    assert!(tasks.slab.is_empty());
}

#[test]
fn reuses_freed_slots() {
    let mut tasks = Tasks::new();
    for _ in 0..CHUNK {
        tasks.push();
    }
    tasks.poll(&mut |_| (true, false));
    assert_eq!(tasks.slab.num_chunks(), 1);

    // The slab held `CHUNK` tasks at once and they have all finished, so taking on
    // another `CHUNK` must not need a second chunk.
    for _ in 0..CHUNK {
        tasks.push();
    }
    assert_eq!(tasks.slab.num_chunks(), 1);
    tasks.poll(&mut |_| (true, false));
}

#[test]
fn bounds_a_self_waking_future() {
    let mut tasks = Tasks::new();
    tasks.push();
    let mut polls = 0;
    let end = tasks.poll(&mut |_| {
        polls += 1;
        (false, true)
    });

    // The task never finishes, so the poll has to give up rather than spin, and it has to
    // leave the caller scheduled to come back.
    assert_eq!(polls, MAX_SWEEPS);
    assert_eq!(end, SweepStep::Yield);
}

#[test]
fn grows_past_one_chunk() {
    let mut tasks = Tasks::new();
    let slots: Vec<usize> = (0..CHUNK * 3 + 1).map(|_| tasks.push()).collect();
    tasks.poll(&mut |_| (false, false));
    assert_eq!(tasks.slab.len(), CHUNK * 3 + 1);
    assert_eq!(tasks.slab.num_chunks(), 4);
    for slot in slots {
        tasks.wake(slot);
    }
    tasks.poll(&mut |_| (true, false));
    assert!(tasks.slab.is_empty());
}

#[test]
fn slots_are_taken_once() {
    let mut slab = FutureSlab::new();
    let mut seen: Vec<usize> = Vec::new();
    for _ in 0..CHUNK + 3 {
        let slot = slab.push();
        assert!(!seen.contains(&slot));
        assert!(slab.is_occupied(slot));
        seen.push(slot);
    }
    let freed = seen[5];
    slab.complete(freed);
    assert!(!slab.is_occupied(freed));
    assert_eq!(slab.push(), freed);
}

#[test]
fn lowest_ready_slot_comes_first() {
    let mut sweep = Sweep::new();
    assert_eq!(sweep.next(2), SweepStep::TakeReady(0));
    sweep.took(slot_bit(9) | slot_bit(3));
    assert_eq!(sweep.next(2), SweepStep::Poll(3));
    assert_eq!(sweep.next(2), SweepStep::Poll(9));
    assert_eq!(sweep.next(2), SweepStep::TakeReady(1));
    sweep.took(slot_bit(CHUNK + 63));
    assert_eq!(sweep.next(2), SweepStep::Poll(127));
}
