//! The deviation-score state machine: converts the focused-window
//! identity and input-activity statistics into an escalating / decaying
//! distraction score and an intervention decision.
//!
//! Every rule is stated as a spec function and `evaluate` is proved to
//! follow them exactly, in the fixed order: decay first, then additive
//! rules, then the threshold decision.

use vstd::prelude::*;

use crate::activity::{ActiveWindowInfo, InputStats};
use crate::text::{contains_ci, contains_ci_exec};

verus! {

/// Deviation score that triggers a light notification.
pub const THRESHOLD_NOTIFICATION: u16 = 10;

/// Deviation score that triggers a strong intervention (overlay).
pub const THRESHOLD_OVERLAY: u16 = 20;

/// Score added when a distraction keyword is found.
pub const SCORE_DISTRACTION_APP: u16 = 5;

/// Score added after a mild stretch without input.
pub const SCORE_INACTIVITY_MILD: u16 = 3;

/// Score added after a severe stretch without input.
pub const SCORE_INACTIVITY_SEVERE: u16 = 10;

/// Seconds without input after which the mild inactivity rule fires.
pub const INACTIVITY_THRESHOLD_MILD_S: u16 = 180;

/// Seconds without input after which the severe inactivity rule fires.
pub const INACTIVITY_THRESHOLD_SEVERE_S: u16 = 600;

/// The deviation score never exceeds this ceiling.
pub const SCORE_CEILING: u16 = 100;

/// Seconds of recent input below which a tick counts as active use.
pub const PRODUCTIVE_IDLE_LIMIT_S: u64 = 60;

/// Seconds between two decay steps.
pub const DECAY_INTERVAL_S: u64 = 10;

/// The intervention the engine asks the caller to surface.
#[derive(Debug, PartialEq, Eq, Structural)]
pub enum InterventionTrigger {
    DoNothing,
    TriggerNotification,
    TriggerOverlay,
}

/// A window counts as a distraction when its title or application name
/// contains one of these keywords, ignoring ASCII case.
pub open spec fn spec_is_distraction(title: Seq<char>, app_name: Seq<char>) -> bool {
    ||| contains_ci(title, "youtube"@)
    ||| contains_ci(app_name, "youtube"@)
    ||| contains_ci(title, "netflix"@)
    ||| contains_ci(app_name, "netflix"@)
    ||| contains_ci(title, "facebook"@)
    ||| contains_ci(app_name, "facebook"@)
    ||| contains_ci(title, "discord"@)
    ||| contains_ci(app_name, "discord"@)
    ||| contains_ci(title, "steam.exe"@)
    ||| contains_ci(app_name, "steam.exe"@)
    ||| contains_ci(title, "slack"@)
    ||| contains_ci(app_name, "slack"@)
}

/// Seconds since the last meaningful input, as seen at `now_s`: the input
/// timestamp is truncated to whole seconds and the difference saturates
/// at zero when the input is newer than `now_s`.
pub open spec fn spec_idle_s(now_s: u64, last_input_ms: u64) -> int {
    let last_s = last_input_ms as int / 1000;
    if now_s as int >= last_s {
        now_s as int - last_s
    } else {
        0
    }
}

/// Score added by the rules of one evaluation: the distraction rule and
/// the inactivity rule. The two inactivity bands are exclusive — only the
/// higher one applies.
pub open spec fn spec_score_to_add(is_distraction: bool, idle_s: int) -> int {
    (if is_distraction {
        SCORE_DISTRACTION_APP as int
    } else {
        0
    }) + (if idle_s >= INACTIVITY_THRESHOLD_SEVERE_S as int {
        SCORE_INACTIVITY_SEVERE as int
    } else if idle_s >= INACTIVITY_THRESHOLD_MILD_S as int {
        SCORE_INACTIVITY_MILD as int
    } else {
        0
    })
}

/// A tick is productive when no distraction keyword fired and input is
/// recent. Only productive ticks may decay the score.
pub open spec fn spec_is_productive(is_distraction: bool, idle_s: int) -> bool {
    !is_distraction && idle_s < PRODUCTIVE_IDLE_LIMIT_S as int
}

/// Whether this evaluation applies a decay step: the tick is productive
/// and the decay interval has elapsed since the last decay (the elapsed
/// time saturates at zero when the clock moved backwards).
pub open spec fn spec_decays(
    is_distraction: bool,
    idle_s: int,
    last_decay_s: u64,
    now_s: u64,
) -> bool {
    &&& spec_is_productive(is_distraction, idle_s)
    &&& (if now_s as int >= last_decay_s as int {
        now_s as int - last_decay_s as int
    } else {
        0
    }) >= DECAY_INTERVAL_S as int
}

/// The score after one evaluation: decay is applied first (one point,
/// floor zero), then the additions, clamped to the ceiling. A tick that
/// both decays and adds nets the addition on the decayed score.
pub open spec fn spec_next_score(
    score: int,
    is_distraction: bool,
    idle_s: int,
    last_decay_s: u64,
    now_s: u64,
) -> int {
    let decayed = if spec_decays(is_distraction, idle_s, last_decay_s, now_s) {
        if score > 0 {
            score - 1
        } else {
            0
        }
    } else {
        score
    };
    let add = spec_score_to_add(is_distraction, idle_s);
    if add > 0 {
        if decayed + add > SCORE_CEILING as int {
            SCORE_CEILING as int
        } else {
            decayed + add
        }
    } else {
        decayed
    }
}

/// The decision for a given score: overlay at or above the overlay
/// threshold, a notification at or above the notification threshold,
/// nothing below both.
pub open spec fn spec_trigger_for(score: int) -> InterventionTrigger {
    if score >= THRESHOLD_OVERLAY as int {
        InterventionTrigger::TriggerOverlay
    } else if score >= THRESHOLD_NOTIFICATION as int {
        InterventionTrigger::TriggerNotification
    } else {
        InterventionTrigger::DoNothing
    }
}

/// Per-session deviation-score state: the accumulated score and the time
/// of the last decay step. One instance exists per active session.
#[derive(Debug)]
pub struct StateEngine {
    deviation_score: u16,
    last_decay_timestamp_s: u64,
}

impl StateEngine {
    /// The state invariant: the score stays within `[0, SCORE_CEILING]`.
    pub closed spec fn wf(&self) -> bool {
        self.deviation_score <= SCORE_CEILING
    }

    /// The current score, as visible to contracts.
    pub closed spec fn spec_score(&self) -> u16 {
        self.deviation_score
    }

    /// The time of the last decay step, as visible to contracts.
    pub closed spec fn spec_last_decay_s(&self) -> u64 {
        self.last_decay_timestamp_s
    }

    /// A fresh engine for a new session: score zero, with the decay clock
    /// starting at the current wall-clock time.
    pub fn new() -> (r: Self)
        ensures
            r.wf(),
            r.spec_score() == 0,
    {
        StateEngine { deviation_score: 0, last_decay_timestamp_s: current_timestamp_s() }
    }

    /// A fresh engine whose decay clock starts at `now_s`; used by
    /// schedulers that supply their own clock.
    pub fn new_at(now_s: u64) -> (r: Self)
        ensures
            r.wf(),
            r.spec_score() == 0,
            r.spec_last_decay_s() == now_s,
    {
        StateEngine { deviation_score: 0, last_decay_timestamp_s: now_s }
    }

    /// The current score, for display.
    pub fn get_current_score(&self) -> (r: u16)
        ensures
            r == self.spec_score(),
            self.wf() ==> r <= SCORE_CEILING,
    {
        self.deviation_score
    }

    /// One evaluation step at time `now_s`: applies decay, then the
    /// scoring rules, and returns the intervention decision. This is a
    /// pure function of the previous state, the two snapshots and
    /// `now_s`.
    pub fn evaluate(
        &mut self,
        window_info: &ActiveWindowInfo,
        input_stats: &InputStats,
        now_s: u64,
    ) -> (r: InterventionTrigger)
        requires
            old(self).wf(),
        ensures
            final(self).wf(),
            final(self).spec_score() as int == spec_next_score(
                old(self).spec_score() as int,
                spec_is_distraction(window_info.title@, window_info.app_name@),
                spec_idle_s(now_s, input_stats.last_meaningful_input_timestamp_ms),
                old(self).spec_last_decay_s(),
                now_s,
            ),
            final(self).spec_last_decay_s() == if spec_decays(
                spec_is_distraction(window_info.title@, window_info.app_name@),
                spec_idle_s(now_s, input_stats.last_meaningful_input_timestamp_ms),
                old(self).spec_last_decay_s(),
                now_s,
            ) {
                now_s
            } else {
                old(self).spec_last_decay_s()
            },
            r == spec_trigger_for(final(self).spec_score() as int),
    {
        let is_distraction = is_distraction_window(window_info);

        let last_input_s = input_stats.last_meaningful_input_timestamp_ms / 1000;
        let idle_s: u64 = if now_s >= last_input_s {
            now_s - last_input_s
        } else {
            0
        };

        let mut score_to_add: u16 = 0;
        if is_distraction {
            score_to_add += SCORE_DISTRACTION_APP;
        }
        if idle_s >= INACTIVITY_THRESHOLD_SEVERE_S as u64 {
            score_to_add += SCORE_INACTIVITY_SEVERE;
        } else if idle_s >= INACTIVITY_THRESHOLD_MILD_S as u64 {
            score_to_add += SCORE_INACTIVITY_MILD;
        }

        let is_productive = !is_distraction && idle_s < PRODUCTIVE_IDLE_LIMIT_S;
        if is_productive {
            let elapsed: u64 = if now_s >= self.last_decay_timestamp_s {
                now_s - self.last_decay_timestamp_s
            } else {
                0
            };
            if elapsed >= DECAY_INTERVAL_S {
                if self.deviation_score > 0 {
                    self.deviation_score = self.deviation_score - 1;
                }
                self.last_decay_timestamp_s = now_s;
            }
        }

        if score_to_add > 0 {
            let raised = self.deviation_score + score_to_add;
            self.deviation_score = if raised > SCORE_CEILING {
                SCORE_CEILING
            } else {
                raised
            };
        }

        if self.deviation_score >= THRESHOLD_OVERLAY {
            InterventionTrigger::TriggerOverlay
        } else if self.deviation_score >= THRESHOLD_NOTIFICATION {
            InterventionTrigger::TriggerNotification
        } else {
            InterventionTrigger::DoNothing
        }
    }

    /// One evaluation step at the current wall-clock time. The decision
    /// follows the evaluation rules for whatever time the clock returned.
    pub fn process_activity(
        &mut self,
        window_info: &ActiveWindowInfo,
        input_stats: &InputStats,
    ) -> (r: InterventionTrigger)
        requires
            old(self).wf(),
        ensures
            final(self).wf(),
            exists|now_s: u64|
                {
                    &&& final(self).spec_score() as int == spec_next_score(
                        old(self).spec_score() as int,
                        spec_is_distraction(window_info.title@, window_info.app_name@),
                        spec_idle_s(now_s, input_stats.last_meaningful_input_timestamp_ms),
                        old(self).spec_last_decay_s(),
                        now_s,
                    )
                    &&& final(self).spec_last_decay_s() == if spec_decays(
                        spec_is_distraction(window_info.title@, window_info.app_name@),
                        spec_idle_s(now_s, input_stats.last_meaningful_input_timestamp_ms),
                        old(self).spec_last_decay_s(),
                        now_s,
                    ) {
                        now_s
                    } else {
                        old(self).spec_last_decay_s()
                    }
                    &&& r == spec_trigger_for(final(self).spec_score() as int)
                },
    {
        let now_s = current_timestamp_s();
        let r = self.evaluate(window_info, input_stats, now_s);
        proof {
            let n = now_s;
            assert(final(self).spec_score() as int == spec_next_score(
                old(self).spec_score() as int,
                spec_is_distraction(window_info.title@, window_info.app_name@),
                spec_idle_s(n, input_stats.last_meaningful_input_timestamp_ms),
                old(self).spec_last_decay_s(),
                n,
            ));
        }
        r
    }
}

/// Whether the focused window looks like a distraction: its title or its
/// application name contains a distraction keyword, ignoring ASCII case.
pub fn is_distraction_window(window_info: &ActiveWindowInfo) -> (r: bool)
    ensures
        r == spec_is_distraction(window_info.title@, window_info.app_name@),
{
    let title: &str = window_info.title.as_str();
    let app: &str = window_info.app_name.as_str();
    if contains_ci_exec(title, "youtube") || contains_ci_exec(app, "youtube") {
        return true;
    }
    if contains_ci_exec(title, "netflix") || contains_ci_exec(app, "netflix") {
        return true;
    }
    if contains_ci_exec(title, "facebook") || contains_ci_exec(app, "facebook") {
        return true;
    }
    if contains_ci_exec(title, "discord") || contains_ci_exec(app, "discord") {
        return true;
    }
    if contains_ci_exec(title, "steam.exe") || contains_ci_exec(app, "steam.exe") {
        return true;
    }
    if contains_ci_exec(title, "slack") || contains_ci_exec(app, "slack") {
        return true;
    }
    false
}

/// Relies on std's `SystemTime::now` and `duration_since`: seconds since
/// the Unix epoch, or zero if the clock reads before the epoch. Nothing
/// more can be promised of the wall clock.
#[verifier::external_body]
fn current_timestamp_s() -> u64 {
    std::time::SystemTime::now()
        .duration_since(std::time::UNIX_EPOCH)
        .unwrap_or_default()
        .as_secs()
}

/// Law: the deviation score stays in `[0, SCORE_CEILING]` across any
/// evaluation, whatever the inputs and however many calls came before.
pub proof fn lemma_score_bounded(
    score: int,
    is_distraction: bool,
    idle_s: int,
    last_decay_s: u64,
    now_s: u64,
)
    requires
        0 <= score <= SCORE_CEILING as int,
    ensures
        0 <= spec_next_score(score, is_distraction, idle_s, last_decay_s, now_s)
            <= SCORE_CEILING as int,
{
}

/// Law: with a distraction window and recent input (idle below the
/// productive limit), one evaluation raises the score by exactly
/// `SCORE_DISTRACTION_APP` — no inactivity band fires and no decay
/// applies. Stated for scores that leave headroom below the ceiling;
/// from `SCORE_CEILING - SCORE_DISTRACTION_APP + 1` upward the score
/// clamps to the ceiling instead.
pub proof fn lemma_distraction_adds_five(score: int, idle_s: int, last_decay_s: u64, now_s: u64)
    requires
        0 <= score,
        score + SCORE_DISTRACTION_APP as int <= SCORE_CEILING as int,
        0 <= idle_s < PRODUCTIVE_IDLE_LIMIT_S as int,
    ensures
        spec_next_score(score, true, idle_s, last_decay_s, now_s) == score
            + SCORE_DISTRACTION_APP as int,
{
}

/// Law: with no distraction and idle time in the mild band, one
/// evaluation adds exactly `SCORE_INACTIVITY_MILD`; in the severe band
/// it adds exactly `SCORE_INACTIVITY_SEVERE`, never the sum — the two
/// bands are exclusive. Stated for scores with headroom below the
/// ceiling.
pub proof fn lemma_inactivity_bands_exclusive(
    score: int,
    idle_s: int,
    last_decay_s: u64,
    now_s: u64,
)
    requires
        0 <= score,
        score + SCORE_INACTIVITY_SEVERE as int <= SCORE_CEILING as int,
        idle_s >= INACTIVITY_THRESHOLD_MILD_S as int,
    ensures
        idle_s < INACTIVITY_THRESHOLD_SEVERE_S as int ==> spec_next_score(
            score,
            false,
            idle_s,
            last_decay_s,
            now_s,
        ) == score + SCORE_INACTIVITY_MILD as int,
        idle_s >= INACTIVITY_THRESHOLD_SEVERE_S as int ==> spec_next_score(
            score,
            false,
            idle_s,
            last_decay_s,
            now_s,
        ) == score + SCORE_INACTIVITY_SEVERE as int,
{
}

/// Law: a productive tick (no distraction, recent input) at least
/// eleven seconds after the previous decay lowers the score by exactly
/// one, with a floor of zero.
pub proof fn lemma_productive_decay(score: int, idle_s: int, last_decay_s: u64, now_s: u64)
    requires
        0 <= score <= SCORE_CEILING as int,
        0 <= idle_s < PRODUCTIVE_IDLE_LIMIT_S as int,
        now_s as int - last_decay_s as int >= 11,
    ensures
        spec_next_score(score, false, idle_s, last_decay_s, now_s) == if score > 0 {
            score - 1
        } else {
            0
        },
{
}

} // verus!
