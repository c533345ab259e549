//! The trigger bot: its firing state machine, the recoil control gate, and the
//! checks that decide whether the crosshair target may be shot.

use vstd::prelude::*;
use rand::distributions::Distribution;
use crate::settings::TriggerBotWeaponSettings;
use crate::text::str_equal;

verus! {

/// Where the trigger bot is in its firing cycle. Timestamps are milliseconds
/// on a monotonic clock.
#[derive(Clone, Copy, Debug, PartialEq, Eq, Structural)]
pub enum TriggerState {
    Idle,
    Pending { delay: u32, timestamp: u64 },
    Sleep { delay: u32, timestamp: u64 },
    Active,
}

/// What one update asks of the caller.
#[derive(Clone, Copy, Debug, PartialEq, Eq, Structural)]
pub struct TriggerOutcome {
    /// A new state for the primary mouse button, where it changes.
    pub mouse_button: Option<bool>,
    /// The weapon settings were needed but could not be resolved.
    pub settings_missing: bool,
}

/// Milliseconds passed since `since`; a clock that went backwards counts as none.
pub open spec fn elapsed(now: u64, since: u64) -> int {
    if now >= since {
        now - since
    } else {
        0
    }
}

/// The lower bound of a weapon's random delay.
pub open spec fn delay_low(w: TriggerBotWeaponSettings) -> u32 {
    if w.delay_min <= w.delay_max {
        w.delay_min
    } else {
        w.delay_max
    }
}

/// The upper bound of a weapon's random delay.
pub open spec fn delay_high(w: TriggerBotWeaponSettings) -> u32 {
    if w.delay_min <= w.delay_max {
        w.delay_max
    } else {
        w.delay_min
    }
}

/// Whether `d` is a delay the weapon's settings allow.
pub open spec fn delay_allowed(weapon: Option<TriggerBotWeaponSettings>, d: u32) -> bool {
    match weapon {
        Some(w) => delay_low(w) <= d <= delay_high(w),
        None => true,
    }
}

/// The delay of a shot that starts: the weapon's delay where its range holds
/// one value, else the drawn one.
pub open spec fn chosen_delay(w: TriggerBotWeaponSettings, sampled: u32) -> u32 {
    if delay_low(w) == delay_high(w) {
        delay_low(w)
    } else {
        sampled
    }
}

/// The state reached by following the transitions that one update takes
/// before it looks at the mouse button, and whether it failed for want of
/// weapon settings. `sampled` is the random delay drawn for a new shot.
pub open spec fn settle(
    state: TriggerState,
    should_shoot: bool,
    check_target_after_delay: bool,
    now: u64,
    weapon: Option<TriggerBotWeaponSettings>,
    sampled: u32,
) -> (TriggerState, bool) {
    match state {
        TriggerState::Idle => if !should_shoot {
            (TriggerState::Idle, false)
        } else {
            match weapon {
                None => (TriggerState::Idle, true),
                Some(w) => {
                    let d = chosen_delay(w, sampled);
                    if d > 0 {
                        (TriggerState::Pending { delay: d, timestamp: now }, false)
                    } else {
                        (TriggerState::Active, false)
                    }
                },
            }
        },
        TriggerState::Pending { delay, timestamp } => if elapsed(now, timestamp) < delay {
            (state, false)
        } else if check_target_after_delay && !should_shoot {
            (TriggerState::Idle, false)
        } else {
            (TriggerState::Active, false)
        },
        TriggerState::Sleep { delay, timestamp } => if elapsed(now, timestamp) < delay {
            (state, false)
        } else {
            (TriggerState::Idle, false)
        },
        TriggerState::Active => if should_shoot {
            (TriggerState::Active, false)
        } else {
            (TriggerState::Idle, false)
        },
    }
}

/// The decision of one update: the settled state, whether the mouse button
/// is to be held, and what the caller has to do. A mouse command is not yet
/// sent here; see `sent_state`.
pub open spec fn decide(
    state: TriggerState,
    active: bool,
    should_shoot: bool,
    check_target_after_delay: bool,
    now: u64,
    weapon: Option<TriggerBotWeaponSettings>,
    sampled: u32,
) -> (TriggerState, bool, TriggerOutcome) {
    let (settled, missing) = settle(
        state,
        should_shoot,
        check_target_after_delay,
        now,
        weapon,
        sampled,
    );
    if missing {
        (settled, active, TriggerOutcome { mouse_button: None, settings_missing: true })
    } else {
        let wanted = settled is Active;
        if wanted == active {
            (settled, active, TriggerOutcome { mouse_button: None, settings_missing: false })
        } else {
            (settled, wanted, TriggerOutcome { mouse_button: Some(wanted), settings_missing: weapon is None })
        }
    }
}

/// The state once a mouse command was sent at `now`: the bot sleeps for the
/// weapon's shot duration; without weapon settings it stays where it is.
pub open spec fn sent_state(state: TriggerState, weapon: Option<TriggerBotWeaponSettings>, now: u64) -> TriggerState {
    match weapon {
        Some(w) => TriggerState::Sleep { delay: w.shot_duration, timestamp: now },
        None => state,
    }
}

/// One update of the trigger bot whose mouse command, if any, was sent: the
/// next state, whether the mouse button is held afterwards, and what the
/// caller had to do.
pub open spec fn transition(
    state: TriggerState,
    active: bool,
    should_shoot: bool,
    check_target_after_delay: bool,
    now: u64,
    weapon: Option<TriggerBotWeaponSettings>,
    sampled: u32,
) -> (TriggerState, bool, TriggerOutcome) {
    let (s, a, o) = decide(state, active, should_shoot, check_target_after_delay, now, weapon, sampled);
    if o.mouse_button is Some {
        (sent_state(s, weapon, now), a, o)
    } else {
        (s, a, o)
    }
}

/// What the recoil control has to do in this update.
#[derive(Clone, Copy, Debug, PartialEq, Eq, Structural)]
pub enum RcsStep {
    /// Recoil control is off or blocked: forget the spray and its remainder.
    Reset,
    /// The spray started less than the configured delay ago.
    Wait,
    /// Pull the aim down.
    Apply,
}

/// The integer state of the trigger bot and of its recoil control.
pub struct TriggerBot {
    pub state: TriggerState,
    pub trigger_active: bool,
    pub rcs_started_at: Option<u64>,
}

/// The states that updates keep: the bot is never left in `Active`, and the
/// mouse button is only held while the bot sleeps after a press.
pub open spec fn trigger_invariant(state: TriggerState, active: bool) -> bool {
    &&& !(state is Active)
    &&& (active ==> state is Sleep)
}

/// Draws a delay from `low..=high` with rand's `Uniform::new_inclusive(low, high)`,
/// sampled with `rand::thread_rng()`. Trusted: the value lies within
/// `low..=high` (`new_inclusive` asserts `low <= high`, which `requires` keeps).
/// Left unsaid: that the draw is uniform, and that `thread_rng` panics when the
/// system's random source cannot be initialized.
#[verifier::external_body]
fn sample_delay(low: u32, high: u32) -> (r: u32)
    requires
        low <= high,
    ensures
        low <= r <= high,
{
    rand::distributions::Uniform::new_inclusive(low, high).sample(&mut rand::thread_rng())
}

/// The transitions that one update takes before it looks at the mouse
/// button, and whether it failed for want of weapon settings.
fn settle_state(
    state: TriggerState,
    should_shoot: bool,
    check_target_after_delay: bool,
    now: u64,
    weapon: Option<TriggerBotWeaponSettings>,
    sampled_delay: u32,
) -> (r: (TriggerState, bool))
    ensures
        r == settle(state, should_shoot, check_target_after_delay, now, weapon, sampled_delay),
{
    let mut missing = false;
    let settled = match state {
        TriggerState::Idle => {
            if !should_shoot {
                TriggerState::Idle
            } else {
                match weapon {
                    None => {
                        missing = true;
                        TriggerState::Idle
                    },
                    Some(w) => {
                        let low = if w.delay_min <= w.delay_max {
                            w.delay_min
                        } else {
                            w.delay_max
                        };
                        let high = if w.delay_min <= w.delay_max {
                            w.delay_max
                        } else {
                            w.delay_min
                        };
                        let d = if low == high {
                            low
                        } else {
                            sampled_delay
                        };
                        if d > 0 {
                            TriggerState::Pending { delay: d, timestamp: now }
                        } else {
                            TriggerState::Active
                        }
                    },
                }
            }
        },
        TriggerState::Pending { delay, timestamp } => {
            let waited = if now >= timestamp {
                now - timestamp
            } else {
                0
            };
            if waited < delay as u64 {
                state
            } else if check_target_after_delay && !should_shoot {
                TriggerState::Idle
            } else {
                TriggerState::Active
            }
        },
        TriggerState::Sleep { delay, timestamp } => {
            let waited = if now >= timestamp {
                now - timestamp
            } else {
                0
            };
            if waited < delay as u64 {
                state
            } else {
                TriggerState::Idle
            }
        },
        TriggerState::Active => {
            if should_shoot {
                TriggerState::Active
            } else {
                TriggerState::Idle
            }
        },
    };
    (settled, missing)
}

/// Whether an update needs the current weapon's settings: to start a shot,
/// or to time the sleep after a mouse command.
pub open spec fn needs_weapon(
    state: TriggerState,
    active: bool,
    should_shoot: bool,
    check_target_after_delay: bool,
    now: u64,
) -> bool {
    (state is Idle && should_shoot) || ((settle(state, should_shoot, check_target_after_delay, now, None, 0).0 is Active)
        != active)
}

impl TriggerBot {
    /// An idle trigger bot that holds no button and no spray.
    pub fn new() -> (r: Self)
        ensures
            r.state == TriggerState::Idle,
            !r.trigger_active,
            r.rcs_started_at is None,
            trigger_invariant(r.state, r.trigger_active),
    {
        TriggerBot { state: TriggerState::Idle, trigger_active: false, rcs_started_at: None }
    }

    /// Whether the next update with these inputs needs the current weapon's
    /// settings; where it does not, they make no difference to it.
    pub fn weapon_needed(&self, should_shoot: bool, check_target_after_delay: bool, now: u64) -> (r: bool)
        ensures
            r == needs_weapon(self.state, self.trigger_active, should_shoot, check_target_after_delay, now),
    {
        if should_shoot && (self.state == TriggerState::Idle) {
            return true;
        }
        let (settled, _) = settle_state(self.state, should_shoot, check_target_after_delay, now, None, 0);
        let wanted = match settled {
            TriggerState::Active => true,
            _ => false,
        };
        wanted != self.trigger_active
    }

    /// The decision of one update, with `sampled_delay` as the random delay
    /// of a shot that starts in it. A mouse command it asks for is to be sent
    /// by the caller, who then reports it with `command_sent`.
    pub fn decide_step(
        &mut self,
        should_shoot: bool,
        check_target_after_delay: bool,
        now: u64,
        weapon: Option<TriggerBotWeaponSettings>,
        sampled_delay: u32,
    ) -> (r: TriggerOutcome)
        ensures
            (final(self).state, final(self).trigger_active, r) == decide(
                old(self).state,
                old(self).trigger_active,
                should_shoot,
                check_target_after_delay,
                now,
                weapon,
                sampled_delay,
            ),
            final(self).rcs_started_at == old(self).rcs_started_at,
    {
        let (settled, missing) = settle_state(self.state, should_shoot, check_target_after_delay, now, weapon, sampled_delay);
        self.state = settled;
        if missing {
            return TriggerOutcome { mouse_button: None, settings_missing: true };
        }
        let wanted = match settled {
            TriggerState::Active => true,
            _ => false,
        };
        if wanted == self.trigger_active {
            return TriggerOutcome { mouse_button: None, settings_missing: false };
        }
        self.trigger_active = wanted;
        TriggerOutcome { mouse_button: Some(wanted), settings_missing: weapon.is_none() }
    }

    /// A mouse command was sent at `now`: the bot sleeps for the weapon's
    /// shot duration.
    pub fn command_sent(&mut self, weapon: Option<TriggerBotWeaponSettings>, now: u64)
        ensures
            final(self).state == sent_state(old(self).state, weapon, now),
            final(self).trigger_active == old(self).trigger_active,
            final(self).rcs_started_at == old(self).rcs_started_at,
    {
        if let Some(w) = weapon {
            self.state = TriggerState::Sleep { delay: w.shot_duration, timestamp: now };
        }
    }

    /// One update of the firing state machine whose mouse command is sent,
    /// with `sampled_delay` as the random delay of a shot that starts in it.
    pub fn step(
        &mut self,
        should_shoot: bool,
        check_target_after_delay: bool,
        now: u64,
        weapon: Option<TriggerBotWeaponSettings>,
        sampled_delay: u32,
    ) -> (r: TriggerOutcome)
        ensures
            (final(self).state, final(self).trigger_active, r) == transition(
                old(self).state,
                old(self).trigger_active,
                should_shoot,
                check_target_after_delay,
                now,
                weapon,
                sampled_delay,
            ),
            final(self).rcs_started_at == old(self).rcs_started_at,
    {
        let r = self.decide_step(should_shoot, check_target_after_delay, now, weapon, sampled_delay);
        if r.mouse_button.is_some() {
            self.command_sent(weapon, now);
        }
        r
    }

    /// The random delay for a shot that may start in this update, drawn from
    /// the weapon's delay range where that range holds more than one value.
    fn draw_delay(&self, should_shoot: bool, weapon: Option<TriggerBotWeaponSettings>) -> (r: u32)
        ensures
            delay_allowed(weapon, r),
    {
        match weapon {
            Some(w) => {
                let low = if w.delay_min <= w.delay_max {
                    w.delay_min
                } else {
                    w.delay_max
                };
                let high = if w.delay_min <= w.delay_max {
                    w.delay_max
                } else {
                    w.delay_min
                };
                let needs_delay = match self.state {
                    TriggerState::Idle => should_shoot && low != high,
                    _ => false,
                };
                if needs_delay {
                    sample_delay(low, high)
                } else {
                    low
                }
            },
            None => 0,
        }
    }

    /// The decision of one update; draws the random delay of a shot that
    /// starts in it from the weapon's delay range. A mouse command it asks
    /// for is to be sent by the caller, who then reports it with
    /// `command_sent`.
    pub fn decide_update(
        &mut self,
        should_shoot: bool,
        check_target_after_delay: bool,
        now: u64,
        weapon: Option<TriggerBotWeaponSettings>,
    ) -> (r: TriggerOutcome)
        ensures
            exists|d: u32|
                delay_allowed(weapon, d) && (final(self).state, final(self).trigger_active, r)
                    == decide(
                    old(self).state,
                    old(self).trigger_active,
                    should_shoot,
                    check_target_after_delay,
                    now,
                    weapon,
                    d,
                ),
            final(self).rcs_started_at == old(self).rcs_started_at,
    {
        let sampled = self.draw_delay(should_shoot, weapon);
        let ghost before = *self;
        let r = self.decide_step(should_shoot, check_target_after_delay, now, weapon, sampled);
        assert(delay_allowed(weapon, sampled) && (self.state, self.trigger_active, r) == decide(
            before.state,
            before.trigger_active,
            should_shoot,
            check_target_after_delay,
            now,
            weapon,
            sampled,
        ));
        r
    }

    /// One update of the firing state machine whose mouse command is sent;
    /// draws the random delay of a shot that starts in this update from the
    /// weapon's delay range.
    pub fn update(
        &mut self,
        should_shoot: bool,
        check_target_after_delay: bool,
        now: u64,
        weapon: Option<TriggerBotWeaponSettings>,
    ) -> (r: TriggerOutcome)
        ensures
            exists|d: u32|
                delay_allowed(weapon, d) && (final(self).state, final(self).trigger_active, r)
                    == transition(
                    old(self).state,
                    old(self).trigger_active,
                    should_shoot,
                    check_target_after_delay,
                    now,
                    weapon,
                    d,
                ),
            final(self).rcs_started_at == old(self).rcs_started_at,
    {
        let sampled = self.draw_delay(should_shoot, weapon);
        let ghost before = *self;
        let r = self.step(should_shoot, check_target_after_delay, now, weapon, sampled);
        assert(delay_allowed(weapon, sampled) && (self.state, self.trigger_active, r) == transition(
            before.state,
            before.trigger_active,
            should_shoot,
            check_target_after_delay,
            now,
            weapon,
            sampled,
        ));
        r
    }

    /// One update of the recoil control gate. `blocked` holds when the settings
    /// are open, the game lost focus, recoil control is toggled off or the
    /// primary button is up; `enabled` and `delay_ms` are the settings of the
    /// current weapon.
    pub fn rcs_step(&mut self, blocked: bool, enabled: bool, delay_ms: u32, now: u64) -> (r: RcsStep)
        ensures
            final(self).state == old(self).state,
            final(self).trigger_active == old(self).trigger_active,
            (blocked || !enabled) ==> r == RcsStep::Reset && final(self).rcs_started_at is None,
            !(blocked || !enabled) ==> {
                let started = match old(self).rcs_started_at {
                    Some(t) => t,
                    None => now,
                };
                &&& final(self).rcs_started_at == Some(started)
                &&& r == (if elapsed(now, started) < delay_ms {
                    RcsStep::Wait
                } else {
                    RcsStep::Apply
                })
            },
    {
        if blocked || !enabled {
            self.rcs_started_at = None;
            return RcsStep::Reset;
        }
        let started = match self.rcs_started_at {
            Some(t) => t,
            None => now,
        };
        self.rcs_started_at = Some(started);
        let waited = if now >= started {
            now - started
        } else {
            0
        };
        if waited < delay_ms as u64 {
            RcsStep::Wait
        } else {
            RcsStep::Apply
        }
    }
}

/// Whether the trigger bot should fire in this update.
pub fn should_shoot(
    toggle_enabled: bool,
    settings_visible: bool,
    app_focus_lost: bool,
    weapon_enabled: bool,
    has_ammo: bool,
    target_valid: bool,
) -> (r: bool)
    ensures
        r == (toggle_enabled && !settings_visible && !app_focus_lost && weapon_enabled && has_ammo
            && target_valid),
{
    toggle_enabled && !settings_visible && !app_focus_lost && weapon_enabled && has_ammo
        && target_valid
}

/// Whether recoil control counts as active for the watermark.
pub fn rcs_active(toggle_enabled: bool, settings_visible: bool, app_focus_lost: bool) -> (r: bool)
    ensures
        r == (toggle_enabled && !settings_visible && !app_focus_lost),
{
    toggle_enabled && !settings_visible && !app_focus_lost
}

/// Whether the current weapon has ammunition; `None` when the local player
/// controller is unavailable.
pub fn weapon_has_ammo(current_ammo: Option<i32>) -> (r: bool)
    ensures
        r == (current_ammo matches Some(a) && a > 0),
{
    match current_ammo {
        Some(a) => a > 0,
        None => false,
    }
}

/// Whether an entity class name is the player pawn class.
pub fn is_player_pawn_class(class_name: Option<&str>) -> (r: bool)
    ensures
        r == (class_name matches Some(n) && n@ == "C_CSPlayerPawn"@),
{
    match class_name {
        Some(n) => str_equal(n, "C_CSPlayerPawn"),
        None => false,
    }
}

/// The team check of the trigger bot: `local_team` is `None` when the local
/// player controller is unavailable, which never passes.
pub fn passes_team_check(team_check: bool, target_team: u8, local_team: Option<u8>) -> (r: bool)
    ensures
        r == (!team_check || (local_team matches Some(l) && l != target_team)),
{
    if !team_check {
        return true;
    }
    match local_team {
        Some(l) => l != target_team,
        None => false,
    }
}

/// Every update keeps the trigger invariant when the weapon settings resolve:
/// the bot never rests in `Active`, and holds the button only while it sleeps.
pub proof fn law_update_keeps_invariant(
    state: TriggerState,
    active: bool,
    should_shoot: bool,
    check_target_after_delay: bool,
    now: u64,
    weapon: TriggerBotWeaponSettings,
    sampled: u32,
)
    requires
        trigger_invariant(state, active),
    ensures
        ({
            let (s, a, _) = transition(
                state,
                active,
                should_shoot,
                check_target_after_delay,
                now,
                Some(weapon),
                sampled,
            );
            trigger_invariant(s, a)
        }),
{
}

/// A mouse command is issued exactly when the held state of the button
/// changes, and it carries the new state.
pub proof fn law_mouse_command_iff_change(
    state: TriggerState,
    active: bool,
    should_shoot: bool,
    check_target_after_delay: bool,
    now: u64,
    weapon: Option<TriggerBotWeaponSettings>,
    sampled: u32,
)
    ensures
        ({
            let (_, a, o) = transition(
                state,
                active,
                should_shoot,
                check_target_after_delay,
                now,
                weapon,
                sampled,
            );
            o.mouse_button == (if a != active {
                Some(a)
            } else {
                None::<bool>
            })
        }),
{
}

/// A press of the button is released by the very next update.
pub proof fn law_press_released_next_update(
    state: TriggerState,
    active: bool,
    should_shoot: bool,
    check_target_after_delay: bool,
    now: u64,
    weapon: TriggerBotWeaponSettings,
    sampled: u32,
)
    requires
        trigger_invariant(state, active),
        active,
    ensures
        ({
            let (_, a, o) = transition(
                state,
                active,
                should_shoot,
                check_target_after_delay,
                now,
                Some(weapon),
                sampled,
            );
            !a && o.mouse_button == Some(false)
        }),
{
}

/// When the target is checked again after the delay, the bot presses only in
/// an update in which the target should be shot.
pub proof fn law_press_needs_target_when_checking(
    state: TriggerState,
    active: bool,
    should_shoot: bool,
    now: u64,
    weapon: Option<TriggerBotWeaponSettings>,
    sampled: u32,
)
    requires
        trigger_invariant(state, active),
    ensures
        ({
            let (_, _, o) = transition(state, active, should_shoot, true, now, weapon, sampled);
            o.mouse_button == Some(true) ==> should_shoot
        }),
{
}

/// A shot that starts waits for a delay within the weapon's delay range.
pub proof fn law_pending_delay_in_range(
    active: bool,
    should_shoot: bool,
    check_target_after_delay: bool,
    now: u64,
    weapon: TriggerBotWeaponSettings,
    sampled: u32,
)
    requires
        delay_allowed(Some(weapon), sampled),
    ensures
        ({
            let (s, _, _) = transition(
                TriggerState::Idle,
                active,
                should_shoot,
                check_target_after_delay,
                now,
                Some(weapon),
                sampled,
            );
            s matches TriggerState::Pending { delay, timestamp } ==> delay_low(weapon) <= delay
                <= delay_high(weapon) && timestamp == now
        }),
{
}

/// What one update of the trigger bot is given: whether the target should be
/// shot, whether the target is checked again after the delay, the time, the
/// current weapon's settings and the delay drawn for a shot that starts.
pub struct TriggerInput {
    pub should_shoot: bool,
    pub check_target_after_delay: bool,
    pub now: u64,
    pub weapon: Option<TriggerBotWeaponSettings>,
    pub sampled: u32,
}

/// One update on the state and the held button.
pub open spec fn update_with(s: (TriggerState, bool), x: TriggerInput) -> (TriggerState, bool, TriggerOutcome) {
    transition(s.0, s.1, x.should_shoot, x.check_target_after_delay, x.now, x.weapon, x.sampled)
}

/// The state and the held button after a run of updates from `s`.
pub open spec fn run(s: (TriggerState, bool), inputs: Seq<TriggerInput>) -> (TriggerState, bool)
    decreases inputs.len(),
{
    if inputs.len() == 0 {
        s
    } else {
        let (st, a, _) = update_with(run(s, inputs.drop_last()), inputs.last());
        (st, a)
    }
}

/// The state and the held button before update `k` of a run.
pub open spec fn state_before(s: (TriggerState, bool), inputs: Seq<TriggerInput>, k: int) -> (TriggerState, bool) {
    run(s, inputs.take(k))
}

/// The mouse command of update `k` of a run.
pub open spec fn command_at(s: (TriggerState, bool), inputs: Seq<TriggerInput>, k: int) -> Option<bool> {
    update_with(state_before(s, inputs, k), inputs[k]).2.mouse_button
}

/// Update `k` of a run found the bot idle and the target to be shot, and the
/// delay it chose lies in the weapon's delay range.
pub open spec fn shot_started(s: (TriggerState, bool), inputs: Seq<TriggerInput>, k: int) -> bool {
    &&& state_before(s, inputs, k).0 is Idle
    &&& inputs[k].should_shoot
    &&& inputs[k].weapon matches Some(w) && delay_low(w) <= chosen_delay(w, inputs[k].sampled) <= delay_high(w)
}

proof fn lemma_run_step(s: (TriggerState, bool), inputs: Seq<TriggerInput>, k: int)
    requires
        0 <= k < inputs.len(),
    ensures
        ({
            let (st, a, _) = update_with(state_before(s, inputs, k), inputs[k]);
            state_before(s, inputs, k + 1) == (st, a)
        }),
{
    assert(inputs.take(k + 1).drop_last() =~= inputs.take(k));
    assert(inputs.take(k + 1).last() == inputs[k]);
}

proof fn lemma_button_kept_without_command(s: (TriggerState, bool), inputs: Seq<TriggerInput>, a: int, b: int)
    requires
        0 <= a <= b <= inputs.len(),
        forall|j: int| a <= j < b ==> (#[trigger] command_at(s, inputs, j)) is None,
    ensures
        state_before(s, inputs, b).1 == state_before(s, inputs, a).1,
    decreases b - a,
{
    if a < b {
        lemma_button_kept_without_command(s, inputs, a, b - 1);
        lemma_run_step(s, inputs, b - 1);
        assert(command_at(s, inputs, b - 1) is None);
        law_mouse_command_iff_change(
            state_before(s, inputs, b - 1).0,
            state_before(s, inputs, b - 1).1,
            inputs[b - 1].should_shoot,
            inputs[b - 1].check_target_after_delay,
            inputs[b - 1].now,
            inputs[b - 1].weapon,
            inputs[b - 1].sampled,
        );
    }
}

proof fn lemma_command_flips_button(s: (TriggerState, bool), inputs: Seq<TriggerInput>, k: int)
    requires
        0 <= k < inputs.len(),
        command_at(s, inputs, k) is Some,
    ensures
        command_at(s, inputs, k) == Some(!state_before(s, inputs, k).1),
        state_before(s, inputs, k + 1).1 == !state_before(s, inputs, k).1,
{
    lemma_run_step(s, inputs, k);
    law_mouse_command_iff_change(
        state_before(s, inputs, k).0,
        state_before(s, inputs, k).1,
        inputs[k].should_shoot,
        inputs[k].check_target_after_delay,
        inputs[k].now,
        inputs[k].weapon,
        inputs[k].sampled,
    );
}

/// Over a run of updates the mouse commands alternate: the command after a
/// press is a release, the command after a release is a press.
pub proof fn law_commands_alternate(s: (TriggerState, bool), inputs: Seq<TriggerInput>, i: int, k: int)
    requires
        0 <= i < k < inputs.len(),
        command_at(s, inputs, i) is Some,
        command_at(s, inputs, k) is Some,
        forall|j: int| i < j < k ==> (#[trigger] command_at(s, inputs, j)) is None,
    ensures
        command_at(s, inputs, k) == Some(!command_at(s, inputs, i).unwrap()),
{
    lemma_command_flips_button(s, inputs, i);
    lemma_button_kept_without_command(s, inputs, i + 1, k);
    lemma_command_flips_button(s, inputs, k);
}

/// From a bot that holds no button, the first mouse command is a press.
pub proof fn law_first_command_presses(s: (TriggerState, bool), inputs: Seq<TriggerInput>, k: int)
    requires
        !s.1,
        0 <= k < inputs.len(),
        command_at(s, inputs, k) is Some,
        forall|j: int| 0 <= j < k ==> (#[trigger] command_at(s, inputs, j)) is None,
    ensures
        command_at(s, inputs, k) == Some(true),
{
    assert(inputs.take(0) =~= Seq::<TriggerInput>::empty());
    lemma_button_kept_without_command(s, inputs, 0, k);
    lemma_command_flips_button(s, inputs, k);
}

proof fn lemma_sleep_until_duration(
    s: (TriggerState, bool),
    inputs: Seq<TriggerInput>,
    i: int,
    w: TriggerBotWeaponSettings,
    t: int,
)
    requires
        0 <= i < t <= inputs.len(),
        inputs[i].weapon == Some(w),
        command_at(s, inputs, i) == Some(false),
        forall|a: int, b: int| i <= a <= b < t ==> inputs[a].now <= inputs[b].now,
    ensures
        state_before(s, inputs, t) == (TriggerState::Sleep { delay: w.shot_duration, timestamp: inputs[i].now }, false)
            || exists|j: int| i < j < t && inputs[j].now >= inputs[i].now + w.shot_duration,
    decreases t - i,
{
    if t == i + 1 {
        lemma_run_step(s, inputs, i);
    } else {
        lemma_sleep_until_duration(s, inputs, i, w, t - 1);
        lemma_run_step(s, inputs, t - 1);
        let j = t - 1;
        if state_before(s, inputs, j) == (TriggerState::Sleep { delay: w.shot_duration, timestamp: inputs[i].now }, false) {
            if elapsed(inputs[j].now, inputs[i].now) >= w.shot_duration {
                assert(inputs[i].now <= inputs[j].now);
                assert(inputs[j].now >= inputs[i].now + w.shot_duration);
            }
        }
    }
}

/// After the bot releases the button, it presses again only once the
/// weapon's shot duration has passed since the release, as long as the clock
/// does not go backwards.
pub proof fn law_release_then_shot_duration(
    s: (TriggerState, bool),
    inputs: Seq<TriggerInput>,
    i: int,
    k: int,
    w: TriggerBotWeaponSettings,
)
    requires
        0 <= i < k < inputs.len(),
        inputs[i].weapon == Some(w),
        command_at(s, inputs, i) == Some(false),
        command_at(s, inputs, k) == Some(true),
        forall|a: int, b: int| i <= a <= b <= k ==> inputs[a].now <= inputs[b].now,
    ensures
        inputs[k].now >= inputs[i].now + w.shot_duration,
{
    lemma_sleep_until_duration(s, inputs, i, w, k);
    if state_before(s, inputs, k) == (TriggerState::Sleep { delay: w.shot_duration, timestamp: inputs[i].now }, false) {
        if elapsed(inputs[k].now, inputs[i].now) >= w.shot_duration {
            assert(inputs[i].now <= inputs[k].now);
        }
    } else {
        let j = choose|j: int| i < j < k && inputs[j].now >= inputs[i].now + w.shot_duration;
        assert(inputs[j].now <= inputs[k].now);
    }
}

proof fn lemma_pending_started(inputs: Seq<TriggerInput>, t: int)
    requires
        0 <= t <= inputs.len(),
        forall|j: int| 0 <= j < inputs.len() ==> (#[trigger] inputs[j]).weapon is Some && delay_allowed(inputs[j].weapon, inputs[j].sampled),
    ensures
        ({
            let st = state_before((TriggerState::Idle, false), inputs, t);
            &&& trigger_invariant(st.0, st.1)
            &&& st.0 matches TriggerState::Pending { delay, timestamp } ==> exists|j: int|
                0 <= j < t && #[trigger] shot_started((TriggerState::Idle, false), inputs, j)
                    && chosen_delay(inputs[j].weapon.unwrap(), inputs[j].sampled) == delay
                    && inputs[j].now == timestamp
        }),
    decreases t,
{
    let s0 = (TriggerState::Idle, false);
    if t == 0 {
        assert(inputs.take(0) =~= Seq::<TriggerInput>::empty());
    } else {
        let j = t - 1;
        lemma_pending_started(inputs, j);
        lemma_run_step(s0, inputs, j);
        let prev = state_before(s0, inputs, j);
        assert(inputs[j].weapon is Some);
        let w = inputs[j].weapon.unwrap();
        law_update_keeps_invariant(
            prev.0,
            prev.1,
            inputs[j].should_shoot,
            inputs[j].check_target_after_delay,
            inputs[j].now,
            w,
            inputs[j].sampled,
        );
        if prev.0 is Idle && state_before(s0, inputs, t).0 is Pending {
            assert(shot_started(s0, inputs, j));
        }
    }
}

/// From a new bot, when every update has weapon settings and draws its delay
/// within the weapon's range, a press comes only after a shot was started:
/// in that update or an earlier one the bot was idle and the target was to be
/// shot, the delay chosen there lies in the weapon's delay range, and at least
/// that delay has passed between the two updates.
pub proof fn law_press_after_full_delay(inputs: Seq<TriggerInput>, k: int)
    requires
        0 <= k < inputs.len(),
        forall|j: int| 0 <= j < inputs.len() ==> (#[trigger] inputs[j]).weapon is Some && delay_allowed(inputs[j].weapon, inputs[j].sampled),
        command_at((TriggerState::Idle, false), inputs, k) == Some(true),
    ensures
        exists|j: int|
            0 <= j <= k && #[trigger] shot_started((TriggerState::Idle, false), inputs, j)
                && elapsed(inputs[k].now, inputs[j].now) >= chosen_delay(inputs[j].weapon.unwrap(), inputs[j].sampled),
{
    let s0 = (TriggerState::Idle, false);
    lemma_pending_started(inputs, k);
    assert(inputs[k].weapon is Some);
    let st = state_before(s0, inputs, k);
    match st.0 {
        TriggerState::Pending { delay, timestamp } => {
            let j = choose|j: int|
                0 <= j < k && #[trigger] shot_started(s0, inputs, j)
                    && chosen_delay(inputs[j].weapon.unwrap(), inputs[j].sampled) == delay
                    && inputs[j].now == timestamp;
            assert(shot_started(s0, inputs, j));
        },
        _ => {
            assert(shot_started(s0, inputs, k));
        },
    }
}

/// An update that does not need the weapon's settings does the same whatever
/// settings it is given, and whatever delay was drawn.
pub proof fn law_unneeded_weapon_is_unused(
    state: TriggerState,
    active: bool,
    should_shoot: bool,
    check_target_after_delay: bool,
    now: u64,
    weapon: Option<TriggerBotWeaponSettings>,
    sampled: u32,
)
    requires
        !needs_weapon(state, active, should_shoot, check_target_after_delay, now),
    ensures
        transition(state, active, should_shoot, check_target_after_delay, now, weapon, sampled)
            == transition(state, active, should_shoot, check_target_after_delay, now, None, 0),
{
}

/// While a shot is pending and its delay has not passed, an update keeps the
/// pending shot as it is and sends nothing: whether the target is still there,
/// and whether the target is checked again after the delay, make no
/// difference before the delay is over.
pub proof fn law_pending_waits_out_delay(
    delay: u32,
    timestamp: u64,
    should_shoot: bool,
    check_target_after_delay: bool,
    now: u64,
    weapon: Option<TriggerBotWeaponSettings>,
    sampled: u32,
)
    requires
        elapsed(now, timestamp) < delay,
    ensures
        ({
            let (s, a, o) = transition(
                TriggerState::Pending { delay, timestamp },
                false,
                should_shoot,
                check_target_after_delay,
                now,
                weapon,
                sampled,
            );
            &&& s == TriggerState::Pending { delay, timestamp }
            &&& !a
            &&& o.mouse_button is None
            &&& !o.settings_missing
        }),
{
}

/// Once the delay of a pending shot has passed, the bot presses and then
/// sleeps for the shot duration, unless the target is checked again and is
/// gone, in which case the shot is dropped without a command.
pub proof fn law_pending_fires_after_delay(
    delay: u32,
    timestamp: u64,
    should_shoot: bool,
    check_target_after_delay: bool,
    now: u64,
    weapon: TriggerBotWeaponSettings,
    sampled: u32,
)
    requires
        elapsed(now, timestamp) >= delay,
    ensures
        ({
            let (s, a, o) = transition(
                TriggerState::Pending { delay, timestamp },
                false,
                should_shoot,
                check_target_after_delay,
                now,
                Some(weapon),
                sampled,
            );
            if check_target_after_delay && !should_shoot {
                s == TriggerState::Idle && !a && o.mouse_button is None
            } else {
                &&& a
                &&& o.mouse_button == Some(true)
                &&& s == TriggerState::Sleep { delay: weapon.shot_duration, timestamp: now }
            }
        }),
{
}

/// A sleeping bot with the button up keeps sleeping until the sleep is over,
/// then goes idle; it sends nothing in either update.
pub proof fn law_sleep_then_idle(
    delay: u32,
    timestamp: u64,
    should_shoot: bool,
    check_target_after_delay: bool,
    now: u64,
    weapon: Option<TriggerBotWeaponSettings>,
    sampled: u32,
)
    ensures
        ({
            let (s, a, o) = transition(
                TriggerState::Sleep { delay, timestamp },
                false,
                should_shoot,
                check_target_after_delay,
                now,
                weapon,
                sampled,
            );
            &&& !a
            &&& o.mouse_button is None
            &&& s == (if elapsed(now, timestamp) < delay {
                TriggerState::Sleep { delay, timestamp }
            } else {
                TriggerState::Idle
            })
        }),
{
}

/// An idle bot without a target stays idle and sends nothing.
pub proof fn law_idle_without_target_stays_idle(
    check_target_after_delay: bool,
    now: u64,
    weapon: Option<TriggerBotWeaponSettings>,
    sampled: u32,
)
    ensures
        transition(TriggerState::Idle, false, false, check_target_after_delay, now, weapon, sampled)
            == (TriggerState::Idle, false, TriggerOutcome { mouse_button: None, settings_missing: false }),
{
}

} // verus!
