//! The simulation clock.

use vstd::prelude::*;

verus! {

/// The world clock of one run. All times are whole nanoseconds.
///
/// The clock advances by the fixed timestep `dt` once per tick; the simulated
/// time is the number of ticks taken times `dt`.
#[derive(Clone, Copy, Debug, PartialEq, Eq, Structural)]
pub struct WorldTimer {
    /// Simulated duration after which the run ends.
    pub simulation_end_time: u64,
    /// Ticks taken so far.
    pub tick_count: u64,
    /// The fixed timestep.
    pub dt: u64,
}

/// Simulated time after `tick_count` ticks of length `dt`.
pub open spec fn elapsed_after(tick_count: nat, dt: nat) -> nat {
    tick_count * dt
}

/// The terminal condition: the simulated time exceeds the configured duration.
pub open spec fn terminal_at(simulation_end_time: nat, dt: nat, tick_count: nat) -> bool {
    elapsed_after(tick_count, dt) > simulation_end_time
}

/// The number of the first tick on which the terminal condition holds, for a
/// positive timestep.
pub open spec fn first_terminal_tick(simulation_end_time: nat, dt: nat) -> nat
    recommends
        dt > 0,
{
    simulation_end_time / dt + 1
}

impl WorldTimer {
    /// A clock at time zero.
    pub fn new(simulation_end_time: u64, dt: u64) -> (timer: Self)
        ensures
            timer.simulation_end_time == simulation_end_time,
            timer.dt == dt,
            timer.tick_count == 0,
    {
        WorldTimer { simulation_end_time, tick_count: 0, dt }
    }

    /// Simulated time on this clock.
    pub open spec fn elapsed(&self) -> nat {
        elapsed_after(self.tick_count as nat, self.dt as nat)
    }

    /// Whether the terminal condition holds on this clock.
    pub open spec fn finished(&self) -> bool {
        terminal_at(self.simulation_end_time as nat, self.dt as nat, self.tick_count as nat)
    }

    /// Simulated time in nanoseconds. The product of two 64-bit numbers always
    /// fits the result.
    pub fn elapsed_nanos(&self) -> (nanos: u128)
        ensures
            nanos == self.elapsed(),
    {
        let ticks: u128 = self.tick_count as u128;
        let step: u128 = self.dt as u128;
        assert(ticks * step <= 0xffff_ffff_ffff_ffff * 0xffff_ffff_ffff_ffff) by (nonlinear_arith)
            requires
                0 <= ticks <= 0xffff_ffff_ffff_ffff,
                0 <= step <= 0xffff_ffff_ffff_ffff,
        ;
        ticks * step
    }

    /// Whether the clock can take one more tick: the simulated time after it
    /// is a number of nanoseconds that 64 bits hold.
    pub open spec fn can_advance(&self) -> bool {
        &&& self.tick_count < u64::MAX
        &&& (self.tick_count + 1) * self.dt <= u64::MAX
    }

    /// Whether the clock can take one more tick.
    pub fn may_advance(&self) -> (may: bool)
        ensures
            may == self.can_advance(),
    {
        if self.tick_count == u64::MAX {
            return false;
        }
        let ticks: u128 = (self.tick_count + 1) as u128;
        let step: u128 = self.dt as u128;
        assert(ticks * step <= 0xffff_ffff_ffff_ffff * 0xffff_ffff_ffff_ffff) by (nonlinear_arith)
            requires
                0 <= ticks <= 0xffff_ffff_ffff_ffff,
                0 <= step <= 0xffff_ffff_ffff_ffff,
        ;
        ticks * step <= u64::MAX as u128
    }

    /// The simulated time, where 64 bits hold it.
    pub fn now(&self) -> (nanos: u64)
        requires
            self.elapsed() <= u64::MAX,
        ensures
            nanos == self.elapsed(),
    {
        let nanos = self.elapsed_nanos();
        nanos as u64
    }

    /// Whether the simulated time exceeds the configured duration.
    pub fn is_finished(&self) -> (done: bool)
        ensures
            done == self.finished(),
    {
        self.elapsed_nanos() > self.simulation_end_time as u128
    }
}

/// Advances the world time by one timestep.
pub fn advance_world_time(world_timer: &mut WorldTimer)
    requires
        old(world_timer).can_advance(),
    ensures
        final(world_timer).tick_count == old(world_timer).tick_count + 1,
        final(world_timer).dt == old(world_timer).dt,
        final(world_timer).simulation_end_time == old(world_timer).simulation_end_time,
        final(world_timer).elapsed() == old(world_timer).elapsed() + old(world_timer).dt,
        final(world_timer).elapsed() <= u64::MAX,
{
    assert((world_timer.tick_count + 1) * world_timer.dt == world_timer.tick_count
        * world_timer.dt + world_timer.dt) by (nonlinear_arith);
    world_timer.tick_count = world_timer.tick_count + 1;
}

/// With a positive timestep the terminal condition first holds on tick
/// `simulation_end_time / dt + 1`: it fails on every earlier tick and holds on
/// that tick and on every later one.
pub proof fn lemma_first_terminal_tick(simulation_end_time: nat, dt: nat, tick_count: nat)
    requires
        dt > 0,
    ensures
        terminal_at(simulation_end_time, dt, tick_count) <==> tick_count >= first_terminal_tick(
            simulation_end_time,
            dt,
        ),
{
    let q = simulation_end_time / dt;
    let r = simulation_end_time % dt;
    assert(simulation_end_time == dt * q + r && 0 <= r < dt) by {
        vstd::arithmetic::div_mod::lemma_fundamental_div_mod(
            simulation_end_time as int,
            dt as int,
        );
        vstd::arithmetic::div_mod::lemma_mod_bound(simulation_end_time as int, dt as int);
    }
    if tick_count >= q + 1 {
        assert(tick_count * dt >= (q + 1) * dt) by (nonlinear_arith)
            requires
                tick_count >= q + 1,
                dt > 0,
        ;
        assert((q + 1) * dt == dt * q + dt) by (nonlinear_arith);
    } else {
        assert(tick_count * dt <= q * dt) by (nonlinear_arith)
            requires
                tick_count <= q,
                dt > 0,
        ;
        assert(q * dt == dt * q) by (nonlinear_arith);
    }
}

} // verus!
