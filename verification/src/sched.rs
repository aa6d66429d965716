//! The cooperative scheduler: a fixed set of tasks that never end, each with
//! a pending bit. The scheduler decides which task is resumed next; resuming
//! it is the caller's part.

use vstd::prelude::*;

verus! {

/// The most tasks one scheduler can hold: one bit of the wake mask each.
pub const MAX_TASKS: usize = 32;

/// How tasks come to be resumed.
#[derive(Clone, Copy, Debug, PartialEq, Eq, Structural)]
pub enum Mode {
    /// Every task is resumed in every round, woken or not.
    Exhaustive,
    /// A task is resumed only after it was woken.
    Gated,
}

/// Whether bit `task` of `mask` is set.
pub open spec fn bit(mask: u32, task: nat) -> bool {
    task < 32 && mask & (1u32 << (task as u32)) != 0
}

/// The mask with the bits of the first `tasks` tasks set.
pub open spec fn all_tasks(tasks: nat) -> u32 {
    if tasks >= 32 {
        0xffff_ffffu32
    } else {
        ((1u32 << (tasks as u32)) - 1) as u32
    }
}

/// A scheduler for a fixed number of tasks, numbered from 0.
#[derive(Debug)]
pub struct Scheduler {
    tasks: usize,
    wake: u32,
    mode: Mode,
}

impl Scheduler {
    /// The number of tasks.
    pub closed spec fn task_count(self) -> nat {
        self.tasks as nat
    }

    /// How tasks come to be resumed.
    pub closed spec fn mode(self) -> Mode {
        self.mode
    }

    /// The tasks that are due to be resumed.
    pub closed spec fn pending(self) -> Set<nat> {
        Set::new(|task: nat| task < self.tasks && bit(self.wake, task))
    }

    /// What holds of every scheduler: it has at most [`MAX_TASKS`] tasks.
    pub closed spec fn wf(self) -> bool {
        self.tasks <= MAX_TASKS
    }

    /// A scheduler for `tasks` tasks. Every task is due once at the start.
    pub fn new(tasks: usize, mode: Mode) -> (scheduler: Self)
        requires
            tasks <= MAX_TASKS,
        ensures
            scheduler.wf(),
            scheduler.task_count() == tasks,
            scheduler.mode() == mode,
            scheduler.pending() == Set::new(|task: nat| task < tasks),
    {
        let wake: u32 = if tasks >= 32 {
            0xffff_ffff
        } else {
            let top: u32 = 1u32 << (tasks as u32);
            assert(top >= 1) by (bit_vector)
                requires
                    top == 1u32 << (tasks as u32),
                    tasks < 32,
            ;
            top - 1
        };
        let scheduler = Scheduler { tasks, wake, mode };
        proof {
            assert forall|task: nat| task < tasks implies bit(wake, task) by {
                lemma_all_tasks_bit(tasks as u32, task as u32);
            }
            assert(scheduler.pending() =~= Set::new(|task: nat| task < tasks));
        }
        scheduler
    }

    /// The number of tasks.
    pub fn tasks(&self) -> (tasks: usize)
        ensures
            tasks == self.task_count(),
    {
        self.tasks
    }

    /// Whether `task` is due to be resumed.
    pub fn is_pending(&self, task: usize) -> (pending: bool)
        requires
            self.wf(),
        ensures
            pending == self.pending().contains(task as nat),
    {
        task < self.tasks && self.wake & (1u32 << (task as u32)) != 0
    }

    /// Marks `task` as due. A task that is already due stays so: a wake is a
    /// bit, not a count. This is what a waker does when it is woken,
    /// wherever that happens.
    pub fn wake(&mut self, task: usize)
        requires
            old(self).wf(),
            task < old(self).task_count(),
        ensures
            final(self).wf(),
            final(self).task_count() == old(self).task_count(),
            final(self).mode() == old(self).mode(),
            final(self).pending() == old(self).pending().insert(task as nat),
    {
        let before = self.wake;
        self.wake = before | (1u32 << (task as u32));
        proof {
            assert forall|other: nat|
                self.pending().contains(other) == old(self).pending().insert(task as nat).contains(
                    other,
                ) by {
                if other < 32 {
                    lemma_set_bit(before, task as u32, other as u32);
                }
            }
            assert(self.pending() =~= old(self).pending().insert(task as nat));
        }
    }

    /// Marks as due every task whose bit is set in `mask`: the wakes that
    /// were recorded elsewhere, say by an interrupt, since the scheduler
    /// last looked. Bits beyond the last task are ignored.
    pub fn wake_mask(&mut self, mask: u32)
        requires
            old(self).wf(),
        ensures
            final(self).wf(),
            final(self).task_count() == old(self).task_count(),
            final(self).mode() == old(self).mode(),
            final(self).pending() == old(self).pending().union(
                Set::new(|task: nat| task < old(self).task_count() && bit(mask, task)),
            ),
    {
        let before = self.wake;
        self.wake = before | mask;
        proof {
            assert forall|other: nat|
                self.pending().contains(other) == old(self).pending().union(
                    Set::new(|task: nat| task < old(self).task_count() && bit(mask, task)),
                ).contains(other) by {
                if other < 32 {
                    lemma_merge_bits(before, mask, other as u32);
                }
            }
            assert(self.pending() =~= old(self).pending().union(
                Set::new(|task: nat| task < old(self).task_count() && bit(mask, task)),
            ));
        }
    }

    /// Starts a round. In exhaustive mode every task becomes due, whatever
    /// its wake state; in gated mode nothing changes.
    pub fn begin_round(&mut self)
        requires
            old(self).wf(),
        ensures
            final(self).wf(),
            final(self).task_count() == old(self).task_count(),
            final(self).mode() == old(self).mode(),
            final(self).pending() == (if old(self).mode() == Mode::Exhaustive {
                Set::new(|task: nat| task < old(self).task_count())
            } else {
                old(self).pending()
            }),
    {
        match self.mode {
            Mode::Exhaustive => {
                *self = Scheduler::new(self.tasks, self.mode);
            },
            Mode::Gated => {},
        }
    }

    /// The task to resume next: the due task with the lowest number, which
    /// is due no longer afterwards. `None` when no task is due, and the
    /// round is over.
    pub fn next(&mut self) -> (task: Option<usize>)
        requires
            old(self).wf(),
        ensures
            final(self).wf(),
            final(self).task_count() == old(self).task_count(),
            final(self).mode() == old(self).mode(),
            task is None <==> old(self).pending().is_empty(),
            task matches Some(first) ==> {
                &&& old(self).pending().contains(first as nat)
                &&& forall|other: nat| old(self).pending().contains(other) ==> first <= other
                &&& final(self).pending() == old(self).pending().remove(first as nat)
            },
            task is None ==> final(self).pending() == old(self).pending(),
    {
        let mut task: usize = 0;
        while task < self.tasks
            invariant
                task <= self.tasks <= MAX_TASKS,
                *self == *old(self),
                forall|other: nat| other < task ==> !bit(self.wake, other),
            decreases self.tasks - task,
        {
            let before = self.wake;
            if before & (1u32 << (task as u32)) != 0 {
                self.wake = before & !(1u32 << (task as u32));
                proof {
                    assert forall|other: nat|
                        self.pending().contains(other) == old(self).pending().remove(
                            task as nat,
                        ).contains(other) by {
                        if other < 32 {
                            lemma_clear_bit(before, task as u32, other as u32);
                        }
                    }
                    assert(self.pending() =~= old(self).pending().remove(task as nat));
                    assert(old(self).pending().contains(task as nat));
                }
                return Some(task);
            }
            task += 1;
        }
        proof {
            assert(old(self).pending() =~= Set::empty());
        }
        None
    }
}

proof fn lemma_all_tasks_bit(tasks: u32, task: u32)
    requires
        task < tasks <= 32,
    ensures
        all_tasks(tasks as nat) & (1u32 << task) != 0,
{
    if tasks < 32 {
        assert((((1u32 << tasks) - 1) as u32) & (1u32 << task) != 0) by (bit_vector)
            requires
                task < tasks < 32,
        ;
    } else {
        assert(0xffff_ffffu32 & (1u32 << task) != 0) by (bit_vector)
            requires
                task < 32,
        ;
    }
}

proof fn lemma_merge_bits(mask: u32, more: u32, other: u32)
    requires
        other < 32,
    ensures
        ((mask | more) & (1u32 << other) != 0) == (mask & (1u32 << other) != 0 || more & (1u32
            << other) != 0),
{
    assert(((mask | more) & (1u32 << other) != 0) == (mask & (1u32 << other) != 0 || more & (1u32
        << other) != 0)) by (bit_vector)
        requires
            other < 32,
    ;
}

proof fn lemma_set_bit(mask: u32, task: u32, other: u32)
    requires
        task < 32,
        other < 32,
    ensures
        ((mask | (1u32 << task)) & (1u32 << other) != 0) == (mask & (1u32 << other) != 0 || other
            == task),
{
    assert(((mask | (1u32 << task)) & (1u32 << other) != 0) == (mask & (1u32 << other) != 0
        || other == task)) by (bit_vector)
        requires
            task < 32,
            other < 32,
    ;
}

proof fn lemma_clear_bit(mask: u32, task: u32, other: u32)
    requires
        task < 32,
        other < 32,
    ensures
        ((mask & !(1u32 << task)) & (1u32 << other) != 0) == (mask & (1u32 << other) != 0 && other
            != task),
{
    assert(((mask & !(1u32 << task)) & (1u32 << other) != 0) == (mask & (1u32 << other) != 0
        && other != task)) by (bit_vector)
        requires
            task < 32,
            other < 32,
    ;
}

} // verus!
