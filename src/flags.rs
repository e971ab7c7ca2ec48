use vstd::prelude::*;

verus! {

/// Base of the restart cool-down, in milliseconds.
pub const RESTART_WAIT_MS: u64 = 1000;

/// The cool-down that follows `attempts` consecutive restarts, in milliseconds:
/// the base times `(attempts + 1)` squared.
pub open spec fn cooldown(attempts: u32) -> int {
    RESTART_WAIT_MS as int * ((attempts as int + 1) * (attempts as int + 1))
}

/// Restart policy of one service.
///
/// Times are milliseconds on a monotonic clock that the caller reads.
#[derive(Clone, Copy, Debug, PartialEq, Eq)]
pub struct Flags {
    /// A restart has been asked for and not yet carried out.
    pub restart: bool,
    /// Consecutive restarts since the policy last settled.
    pub restart_attempts: u32,
    /// When the most recent restart happened, if the policy has not settled since.
    pub restarted_at: Option<u64>,
}

/// What the health pass decided for one service.
#[derive(Clone, Copy, Debug, PartialEq, Eq)]
pub enum Decision {
    /// Stop the service and start it again, now.
    Restart,
    /// A restart is pending, but the cool-down has not run out.
    Deferred,
    /// Nothing to do.
    Healthy,
}

impl Flags {
    /// The policy of a service that has never been restarted.
    pub open spec fn fresh() -> Flags {
        Flags { restart: false, restart_attempts: 0, restarted_at: None }
    }

    /// A settled policy carries no attempts.
    pub open spec fn wf(self) -> bool {
        self.restarted_at is None ==> self.restart_attempts == 0
    }

    /// Whether the cool-down allows a restart at time `now`.
    pub open spec fn can_restart_at(self, now: u64) -> bool {
        match self.restarted_at {
            None => true,
            Some(t) => now as int >= t as int + cooldown(self.restart_attempts),
        }
    }

    /// The policy after a restart at time `now`.
    pub open spec fn recorded(self, now: u64) -> Flags {
        Flags {
            restart: self.restart,
            restart_attempts: (self.restart_attempts + 1) as u32,
            restarted_at: Some(now),
        }
    }

    /// One step of the health pass: the new policy and the decision, given
    /// whether the service is up and the time.
    pub open spec fn tick(self, up: bool, now: u64) -> (Flags, Decision) {
        if self.restart || !up {
            let pending = Flags { restart: true, ..self };
            if self.can_restart_at(now) {
                (pending.recorded(now), Decision::Restart)
            } else {
                (pending, Decision::Deferred)
            }
        } else if self.can_restart_at(now) {
            (Flags::fresh(), Decision::Healthy)
        } else {
            (self, Decision::Healthy)
        }
    }

    /// The policy once the restart it asked for has been carried out
    /// (`done`) or has failed.
    pub open spec fn finished(self, done: bool) -> Flags {
        if done {
            Flags { restart: false, ..self }
        } else {
            self
        }
    }

    /// A policy with no restart recorded.
    pub fn new() -> (r: Flags)
        ensures
            r == Flags::fresh(),
    {
        Flags { restart: false, restart_attempts: 0, restarted_at: None }
    }

    /// Whether a restart may happen at time `now`: always when none was
    /// recorded, else once the cool-down since the last one has run out.
    pub fn can_be_restarted(&self, now: u64) -> (r: bool)
        ensures
            r == self.can_restart_at(now),
    {
        match self.restarted_at {
            None => true,
            Some(t) => {
                if now < t {
                    proof {
                        lemma_cooldown_positive(self.restart_attempts);
                    }
                    false
                } else {
                    let a: u128 = self.restart_attempts as u128 + 1;
                    proof {
                        lemma_cooldown_bounds(self.restart_attempts);
                    }
                    let wait: u128 = RESTART_WAIT_MS as u128 * (a * a);
                    ((now - t) as u128) >= wait
                }
            }
        }
    }

    /// Records a restart at time `now`: one more attempt, and the time.
    pub fn record_restart(&mut self, now: u64)
        requires
            old(self).wf(),
            old(self).can_restart_at(now),
        ensures
            *final(self) == old(self).recorded(now),
            final(self).wf(),
    {
        proof {
            lemma_attempts_bounded(*self, now);
        }
        self.restart_attempts = self.restart_attempts + 1;
        self.restarted_at = Some(now);
    }

    /// Returns the policy to its fresh state when no restart is pending and
    /// the cool-down has run out: the service has stabilised.
    pub fn settle(&mut self, now: u64)
        ensures
            *final(self) == (if !old(self).restart && old(self).can_restart_at(now) {
                Flags::fresh()
            } else {
                *old(self)
            }),
    {
        if !self.restart && self.can_be_restarted(now) {
            *self = Flags::new();
        }
    }

    /// One step of the health pass for a service whose liveness probe gave
    /// `up` at time `now`. A service that is down gets a pending restart; a
    /// pending restart goes ahead once the cool-down allows it, and is then
    /// recorded; with nothing pending, the policy settles.
    pub fn check(&mut self, up: bool, now: u64) -> (d: Decision)
        requires
            old(self).wf(),
        ensures
            (*final(self), d) == old(self).tick(up, now),
            final(self).wf(),
    {
        if !up {
            self.restart = true;
        }
        if self.restart {
            if !self.can_be_restarted(now) {
                Decision::Deferred
            } else {
                self.record_restart(now);
                Decision::Restart
            }
        } else {
            self.settle(now);
            Decision::Healthy
        }
    }

    /// Applies the outcome of a restart: when it went through, nothing is
    /// pending any more; when it failed, the restart stays pending.
    pub fn finish_restart(&mut self, done: bool)
        ensures
            *final(self) == old(self).finished(done),
    {
        if done {
            self.restart = false;
        }
    }
}

/// A service that goes down with no restart pending gets one at the next
/// check. Once the cool-down allows it, exactly one restart is decided and
/// the count of attempts grows by one; while it does not, the restart waits.
/// After the restart went through, a check that finds the service up decides
/// no other restart.
pub proof fn lemma_crash_restart(f: Flags, now: u64, later: u64)
    requires
        f.wf(),
        !f.restart,
    ensures
        f.tick(false, now).0.restart,
        f.can_restart_at(now) ==> f.restart_attempts < u32::MAX && f.tick(false, now) == (
        Flags {
            restart: true,
            restart_attempts: (f.restart_attempts + 1) as u32,
            restarted_at: Some(now),
        },
        Decision::Restart,
        ),
        !f.can_restart_at(now) ==> f.tick(false, now) == (
        Flags { restart: true, ..f },
        Decision::Deferred,
        ),
        f.can_restart_at(now) ==> !f.tick(false, now).0.finished(true).restart && f.tick(
            false,
            now,
        ).0.finished(true).tick(true, later).1 == Decision::Healthy,
{
    if f.can_restart_at(now) {
        lemma_attempts_bounded(f, now);
    }
}

/// With `n` attempts and the last restart at `t0`, a restart is refused
/// before `t0 + base * (n + 1)^2` and allowed from then on.
pub proof fn lemma_backoff_growth(f: Flags, t0: u64, now: u64)
    requires
        f.restarted_at == Some(t0),
    ensures
        f.can_restart_at(now) <==> now >= t0 + RESTART_WAIT_MS * ((f.restart_attempts + 1) * (
        f.restart_attempts + 1)),
        now < t0 ==> !f.can_restart_at(now),
{
    lemma_cooldown_positive(f.restart_attempts);
}

/// A service that stays up with nothing pending past its cool-down returns
/// to the fresh policy, so that its next crash is restarted at once and
/// counts as the first attempt, whatever the count was before.
pub proof fn lemma_backoff_decay(f: Flags, settled_at: u64, crash_at: u64)
    requires
        f.wf(),
        !f.restart,
        f.can_restart_at(settled_at),
    ensures
        f.tick(true, settled_at).0 == Flags::fresh(),
        Flags::fresh().tick(false, crash_at) == (
        Flags { restart: true, restart_attempts: 1, restarted_at: Some(crash_at) },
        Decision::Restart,
        ),
{
}

proof fn lemma_cooldown_positive(attempts: u32)
    ensures
        cooldown(attempts) >= RESTART_WAIT_MS,
{
    let a = attempts as int + 1;
    assert(a * a >= 1) by (nonlinear_arith)
        requires
            a >= 1,
    ;
}

proof fn lemma_cooldown_bounds(attempts: u32)
    ensures
        (attempts as int + 1) * (attempts as int + 1) <= 0x1_0000_0000_0000_0000,
        cooldown(attempts) <= 1000 * 0x1_0000_0000_0000_0000,
{
    let a = attempts as int + 1;
    assert(a * a <= 0x1_0000_0000 * 0x1_0000_0000) by (nonlinear_arith)
        requires
            1 <= a <= 0x1_0000_0000,
    ;
}

/// A restart that the cool-down allows never takes the count of attempts
/// past its type.
proof fn lemma_attempts_bounded(f: Flags, now: u64)
    requires
        f.wf(),
        f.can_restart_at(now),
    ensures
        f.restart_attempts < u32::MAX,
{
    if f.restart_attempts == u32::MAX {
        let a = f.restart_attempts as int + 1;
        assert(a * a >= a) by (nonlinear_arith)
            requires
                a >= 1,
        ;
        assert(cooldown(f.restart_attempts) > u64::MAX);
    }
}

} // verus!
