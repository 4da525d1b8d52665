//! The two priority tiers: fixed-capacity task pools, the boot sequence that
//! fills them, and the hardware arbitration between them.
use vstd::prelude::*;
use crate::config::HIGH_PRIORITY_LEVEL;

verus! {

/// A hardware-enforced execution context.
#[derive(Clone, Copy, Debug, PartialEq, Eq, Structural)]
pub enum Tier {
    /// The run loop inside the repurposed interrupt vector.
    High,
    /// The run loop in thread context.
    Low,
}

/// The tasks of the probe.
#[derive(Clone, Copy, Debug, PartialEq, Eq, Structural)]
pub enum TaskKind {
    Response,
    Stimulus,
    Heartbeat,
    Keeper,
}

/// A task could not be spawned: every slot of the pool is taken.
#[derive(Clone, Copy, Debug, PartialEq, Eq, Structural)]
pub enum SpawnError {
    Busy,
}

/// A cooperative run loop's table of task slots, sized at build time.
#[derive(Clone, Debug)]
pub struct TaskPool {
    pub tier: Tier,
    pub capacity: usize,
    pub tasks: Vec<TaskKind>,
}

impl TaskPool {
    /// No more tasks than slots.
    pub open spec fn wf(&self) -> bool {
        self.tasks@.len() <= self.capacity
    }

    /// An empty pool of `capacity` slots for the given tier.
    pub fn new(tier: Tier, capacity: usize) -> (r: TaskPool)
        ensures
            r.wf(),
            r.tier == tier,
            r.capacity == capacity,
            r.tasks@ == Seq::<TaskKind>::empty(),
    {
        TaskPool { tier, capacity, tasks: Vec::new() }
    }

    /// Takes a slot for `task`, or fails when none is left.
    pub fn spawn(&mut self, task: TaskKind) -> (r: Result<(), SpawnError>)
        requires
            old(self).wf(),
        ensures
            final(self).wf(),
            final(self).tier == old(self).tier,
            final(self).capacity == old(self).capacity,
            r is Err <==> old(self).tasks@.len() == old(self).capacity,
            r is Ok ==> final(self).tasks@ == old(self).tasks@.push(task),
            r is Err ==> final(self).tasks@ == old(self).tasks@,
    {
        if self.tasks.len() == self.capacity {
            Err(SpawnError::Busy)
        } else {
            self.tasks.push(task);
            Ok(())
        }
    }

    /// Every slot is taken.
    pub fn is_full(&self) -> (r: bool)
        ensures
            r == (self.tasks@.len() == self.capacity),
    {
        self.tasks.len() == self.capacity
    }
}

/// Which run loop the hardware services when work is ready: the high tier
/// whenever it has any, else the low tier, else none (the core waits for an
/// event).
pub fn next_tier(high_ready: bool, low_ready: bool) -> (r: Option<Tier>)
    ensures
        high_ready ==> r == Some(Tier::High),
        !high_ready && low_ready ==> r == Some(Tier::Low),
        !high_ready && !low_ready ==> r is None,
{
    if high_ready {
        Some(Tier::High)
    } else if low_ready {
        Some(Tier::Low)
    } else {
        None
    }
}

/// Why boot aborted.
#[derive(Clone, Copy, Debug, PartialEq, Eq, Structural)]
pub enum BootError {
    /// A pool ran out of slots while its tasks were spawned.
    PoolExhausted(Tier),
    /// A pool was left with slots that no task took.
    CapacityMismatch(Tier),
}

/// The two filled pools and the interrupt priority of the high tier.
#[derive(Clone, Debug)]
pub struct Boot {
    pub high: TaskPool,
    pub low: TaskPool,
    pub high_priority: u8,
}

/// The tasks of the high tier, in spawn order.
pub open spec fn high_tasks() -> Seq<TaskKind> {
    seq![TaskKind::Response]
}

/// The tasks of the low tier, in spawn order.
pub open spec fn low_tasks() -> Seq<TaskKind> {
    seq![TaskKind::Stimulus, TaskKind::Heartbeat, TaskKind::Keeper]
}

/// The outcome of booting with pools of the given capacities.
pub open spec fn boot_outcome(high_capacity: usize, low_capacity: usize) -> Result<(), BootError> {
    if high_capacity < 1 {
        Err(BootError::PoolExhausted(Tier::High))
    } else if high_capacity > 1 {
        Err(BootError::CapacityMismatch(Tier::High))
    } else if low_capacity < 3 {
        Err(BootError::PoolExhausted(Tier::Low))
    } else if low_capacity > 3 {
        Err(BootError::CapacityMismatch(Tier::Low))
    } else {
        Ok(())
    }
}

/// Spawns the response task into a high-tier pool of `high_capacity` slots,
/// then the stimulus, heartbeat and keeper tasks into a low-tier pool of
/// `low_capacity` slots. Boot succeeds only when each capacity matches its
/// tasks exactly.
pub fn boot_with(high_capacity: usize, low_capacity: usize) -> (r: Result<Boot, BootError>)
    ensures
        r is Ok <==> boot_outcome(high_capacity, low_capacity) is Ok,
        r matches Err(e) ==> boot_outcome(high_capacity, low_capacity) == Err::<(), BootError>(e),
        r matches Ok(b) ==> {
            &&& b.high.tier == Tier::High
            &&& b.low.tier == Tier::Low
            &&& b.high.tasks@ == high_tasks()
            &&& b.low.tasks@ == low_tasks()
            &&& b.high.capacity == high_capacity
            &&& b.low.capacity == low_capacity
            &&& b.high_priority == HIGH_PRIORITY_LEVEL
        },
{
    let mut high = TaskPool::new(Tier::High, high_capacity);
    if high.spawn(TaskKind::Response).is_err() {
        return Err(BootError::PoolExhausted(Tier::High));
    }
    if !high.is_full() {
        return Err(BootError::CapacityMismatch(Tier::High));
    }
    let mut low = TaskPool::new(Tier::Low, low_capacity);
    if low.spawn(TaskKind::Stimulus).is_err() || low.spawn(TaskKind::Heartbeat).is_err()
        || low.spawn(TaskKind::Keeper).is_err() {
        return Err(BootError::PoolExhausted(Tier::Low));
    }
    if !low.is_full() {
        return Err(BootError::CapacityMismatch(Tier::Low));
    }
    proof {
        assert(high.tasks@ =~= high_tasks());
        assert(low.tasks@ =~= low_tasks());
    }
    Ok(Boot { high, low, high_priority: HIGH_PRIORITY_LEVEL })
}

/// Boot with the pool sizes the firmware is built with: one high-tier slot
/// and three low-tier slots. It always succeeds.
pub fn boot() -> (r: Result<Boot, BootError>)
    ensures
        r matches Ok(b) && b.high.tasks@ == high_tasks() && b.low.tasks@ == low_tasks()
            && b.high_priority == HIGH_PRIORITY_LEVEL,
{
    boot_with(1, 3)
}

} // verus!
