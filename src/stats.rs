use vstd::prelude::*;

verus! {

/// Number of tasks the periodic monitor reports as running.
pub const TASK_COUNT: u32 = 4;

/// One counter step: add one, staying at the type's maximum once reached.
pub open spec fn saturating_inc(x: u32) -> u32 {
    if x < u32::MAX {
        (x + 1) as u32
    } else {
        x
    }
}

/// Shared statistics of the system. Each field has one writer task; readers
/// take copies with `snapshot`.
#[derive(Clone, Copy, Debug, PartialEq, Eq, Structural)]
pub struct SystemStatistics {
    pub uptime_ms: u64,
    pub task_count: u32,
    pub button_presses: u32,
    pub led1_blinks: u32,
    pub led2_blinks: u32,
    pub adc_samples: u32,
    pub weighted_position: u32,
}

fn bump(x: u32) -> (r: u32)
    ensures
        r == saturating_inc(x),
{
    if x < u32::MAX {
        x + 1
    } else {
        x
    }
}

impl SystemStatistics {
    /// All fields zero, as on boot.
    pub fn new() -> (r: SystemStatistics)
        ensures
            r.uptime_ms == 0,
            r.task_count == 0,
            r.button_presses == 0,
            r.led1_blinks == 0,
            r.led2_blinks == 0,
            r.adc_samples == 0,
            r.weighted_position == 0,
    {
        SystemStatistics {
            uptime_ms: 0,
            task_count: 0,
            button_presses: 0,
            led1_blinks: 0,
            led2_blinks: 0,
            adc_samples: 0,
            weighted_position: 0,
        }
    }

    /// A copy of every field, taken at one instant.
    pub fn snapshot(&self) -> (r: SystemStatistics)
        ensures
            r == *self,
    {
        *self
    }

    /// Counts one button press.
    pub fn record_button_press(&mut self)
        ensures
            *final(self) == (SystemStatistics {
                button_presses: saturating_inc(old(self).button_presses),
                ..*old(self)
            }),
    {
        self.button_presses = bump(self.button_presses);
    }

    /// Counts one full blink of the fast LED.
    pub fn record_led1_blink(&mut self)
        ensures
            *final(self) == (SystemStatistics {
                led1_blinks: saturating_inc(old(self).led1_blinks),
                ..*old(self)
            }),
    {
        self.led1_blinks = bump(self.led1_blinks);
    }

    /// Counts one full blink of the slow LED.
    pub fn record_led2_blink(&mut self)
        ensures
            *final(self) == (SystemStatistics {
                led2_blinks: saturating_inc(old(self).led2_blinks),
                ..*old(self)
            }),
    {
        self.led2_blinks = bump(self.led2_blinks);
    }

    /// Stores the position computed from one sensor sweep and counts the sweep.
    pub fn record_adc_sweep(&mut self, position: u32)
        ensures
            *final(self) == (SystemStatistics {
                adc_samples: saturating_inc(old(self).adc_samples),
                weighted_position: position,
                ..*old(self)
            }),
    {
        self.adc_samples = bump(self.adc_samples);
        self.weighted_position = position;
    }

    /// The monitor's tick: sets the uptime gauge and the running-task gauge.
    pub fn record_uptime(&mut self, uptime_ms: u64)
        ensures
            *final(self) == (SystemStatistics {
                uptime_ms: uptime_ms,
                task_count: TASK_COUNT,
                ..*old(self)
            }),
    {
        self.uptime_ms = uptime_ms;
        self.task_count = TASK_COUNT;
    }

    /// Clears the button and LED counters together; other fields stay.
    pub fn reset_counters(&mut self)
        ensures
            *final(self) == (SystemStatistics {
                button_presses: 0,
                led1_blinks: 0,
                led2_blinks: 0,
                ..*old(self)
            }),
    {
        self.button_presses = 0;
        self.led1_blinks = 0;
        self.led2_blinks = 0;
    }
}

/// A counter after one increment for each entry of `schedule`; an entry
/// names the producer that issued the increment.
pub open spec fn run_schedule(start: u32, schedule: Seq<nat>) -> u32
    decreases schedule.len(),
{
    if schedule.len() == 0 {
        start
    } else {
        saturating_inc(run_schedule(start, schedule.drop_last()))
    }
}

/// How many increments producer `p` issued in `schedule`.
pub open spec fn issued_by(schedule: Seq<nat>, p: nat) -> nat
    decreases schedule.len(),
{
    if schedule.len() == 0 {
        0
    } else {
        issued_by(schedule.drop_last(), p) + if schedule.last() == p {
            1nat
        } else {
            0nat
        }
    }
}

/// Increments issued by producers `0 .. n`.
pub open spec fn issued_by_first(schedule: Seq<nat>, n: nat) -> nat
    decreases n,
{
    if n == 0 {
        0
    } else {
        issued_by_first(schedule, (n - 1) as nat) + issued_by(schedule, (n - 1) as nat)
    }
}

proof fn lemma_run_schedule(start: u32, schedule: Seq<nat>)
    requires
        start + schedule.len() <= u32::MAX,
    ensures
        run_schedule(start, schedule) == start + schedule.len(),
    decreases schedule.len(),
{
    if schedule.len() > 0 {
        lemma_run_schedule(start, schedule.drop_last());
    }
}

proof fn lemma_issued_step(schedule: Seq<nat>, n: nat)
    requires
        schedule.len() > 0,
    ensures
        issued_by_first(schedule, n) == issued_by_first(schedule.drop_last(), n) + if schedule.last()
            < n {
            1nat
        } else {
            0nat
        },
    decreases n,
{
    if n > 0 {
        lemma_issued_step(schedule, (n - 1) as nat);
    }
}

proof fn lemma_issued_total(schedule: Seq<nat>, n: nat)
    requires
        forall|i: int| 0 <= i < schedule.len() ==> schedule[i] < n,
    ensures
        issued_by_first(schedule, n) == schedule.len(),
    decreases schedule.len(),
{
    if schedule.len() > 0 {
        lemma_issued_step(schedule, n);
        let rest = schedule.drop_last();
        assert forall|i: int| 0 <= i < rest.len() implies rest[i] < n by {
            assert(rest[i] == schedule[i]);
        }
        lemma_issued_total(rest, n);
    } else {
        lemma_issued_zero(schedule, n);
    }
}

proof fn lemma_issued_zero(schedule: Seq<nat>, n: nat)
    requires
        schedule.len() == 0,
    ensures
        issued_by_first(schedule, n) == 0,
    decreases n,
{
    if n > 0 {
        lemma_issued_zero(schedule, (n - 1) as nat);
    }
}

proof fn lemma_issued_uniform(schedule: Seq<nat>, n: nat, m: nat)
    requires
        forall|p: nat| p < n ==> issued_by(schedule, p) == m,
    ensures
        issued_by_first(schedule, n) == n * m,
    decreases n,
{
    if n > 0 {
        lemma_issued_uniform(schedule, (n - 1) as nat, m);
        assert(issued_by(schedule, (n - 1) as nat) == m);
        assert(((n - 1) as nat) * m + m == n * m) by (nonlinear_arith)
            requires
                n > 0,
        ;
    } else {
        assert(n * m == 0) by (nonlinear_arith)
            requires
                n == 0,
        ;
    }
}

/// `n` producers each issuing `m` increments to one shared counter, in any
/// interleaving, leave it exactly `n * m` above where it started, as long as
/// that stays within the counter's width.
pub proof fn lemma_concurrent_increments(start: u32, schedule: Seq<nat>, n: nat, m: nat)
    requires
        forall|i: int| 0 <= i < schedule.len() ==> schedule[i] < n,
        forall|p: nat| p < n ==> issued_by(schedule, p) == m,
        start + n * m <= u32::MAX,
    ensures
        run_schedule(start, schedule) == start + n * m,
{
    lemma_issued_total(schedule, n);
    lemma_issued_uniform(schedule, n, m);
    lemma_run_schedule(start, schedule);
}

} // verus!
