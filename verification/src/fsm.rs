//! The pet's behavioural state machine: telemetry events update what the
//! pet knows of the desktop, and each tick decides its state.
use vstd::prelude::*;
use crate::text::{chars_of, contains, lowercase, seq_contains, to_lowercase_chars};
use crate::types::{CpuLoad, PetState, TelemetryEvent, VitalsVector};

verus! {

/// Nanoseconds in a second.
pub const NANOS_PER_SEC: u128 = 1_000_000_000;

/// How long a celebration lasts: five seconds, in nanoseconds.
pub const CELEBRATION_NANOS: u128 = 5_000_000_000;

/// How long the CPU must stay busy before the pet is distressed: sixty
/// seconds, in nanoseconds.
pub const DISTRESS_AFTER_NANOS: u128 = 60_000_000_000;

/// Idle seconds after which the pet falls asleep.
pub const SLEEP_AFTER_IDLE_SECS: u32 = 300;

/// Idle seconds below which a sleeping pet may wake.
pub const WAKE_BELOW_IDLE_SECS: u32 = 10;

/// Energy below which the pet falls asleep (10 points).
pub const SLEEP_BELOW_ENERGY: i64 = 10_000_000;

/// Energy above which a sleeping pet may wake (30 points).
pub const WAKE_ABOVE_ENERGY: i64 = 30_000_000;

/// The longest `std::time::Duration`, in nanoseconds.
pub open spec fn max_duration_nanos() -> int {
    u64::MAX as int * 1_000_000_000 + 999_999_999
}

/// The words that mark a window as a code editor or terminal.
pub const IDE_KEYWORDS: [&'static str; 7] = ["code", "zed", "nvim", "neovim", "alacritty", "kitty", "wezterm"];

/// The words of `IDE_KEYWORDS`.
pub open spec fn ide_keywords() -> Seq<Seq<char>> {
    seq!["code"@, "zed"@, "nvim"@, "neovim"@, "alacritty"@, "kitty"@, "wezterm"@]
}

/// A lower-cased window class or title names a code editor or terminal.
pub open spec fn names_ide(class_lower: Seq<char>, title_lower: Seq<char>) -> bool {
    exists|k: int|
        #![trigger ide_keywords()[k]]
        0 <= k < ide_keywords().len() && (seq_contains(class_lower, ide_keywords()[k])
            || seq_contains(title_lower, ide_keywords()[k]))
}

/// Whether a window whose lower-cased class and title are given names a
/// code editor or terminal: one of the words of `ide_keywords` occurs in
/// either.
pub fn mentions_ide_keyword(class_lower: &Vec<char>, title_lower: &Vec<char>) -> (r: bool)
    ensures
        r == names_ide(class_lower@, title_lower@),
{
    let words = IDE_KEYWORDS;
    let ghost kws = ide_keywords();
    let mut k: usize = 0;
    while k < 7
        invariant
            k <= 7,
            words@.len() == 7,
            forall|i: int| 0 <= i < 7 ==> #[trigger] words@[i]@ == kws[i],
            kws == ide_keywords(),
            forall|i: int|
                0 <= i < k ==> !(#[trigger] seq_contains(class_lower@, kws[i]) || seq_contains(
                    title_lower@,
                    kws[i],
                )),
        decreases 7 - k,
    {
        let word = chars_of(words[k]);
        if contains(class_lower, &word) || contains(title_lower, &word) {
            assert(seq_contains(class_lower@, kws[k as int]) || seq_contains(
                title_lower@,
                kws[k as int],
            ));
            return true;
        }
        k = k + 1;
    }
    false
}

/// What the state machine remembers between ticks.
///
/// Durations are in nanoseconds, as `std::time::Duration::as_nanos` gives
/// them; idle time is in seconds.
#[derive(Debug, Clone, Copy, PartialEq, Eq, Structural)]
pub struct FsmState {
    pub current_state: PetState,
    pub previous_state: Option<PetState>,
    pub celebration_timer: Option<u128>,
    pub distressed_high_cpu_duration: u128,
    pub idle_time: u32,
    pub cpu_usage: CpuLoad,
    pub is_ide_active: bool,
}

impl FsmState {
    /// The state of a new machine: idle, with nothing observed yet.
    pub open spec fn initial() -> FsmState {
        FsmState {
            current_state: PetState::Idle,
            previous_state: None,
            celebration_timer: None,
            distressed_high_cpu_duration: 0,
            idle_time: 0,
            cpu_usage: CpuLoad { busy: 0, total: 0 },
            is_ide_active: false,
        }
    }

    /// The consistency that every operation keeps: the pet celebrates
    /// exactly while a celebration timer of at most five seconds runs, and
    /// only a celebration remembers the state to return to, which is never
    /// itself a celebration.
    pub open spec fn wf(self) -> bool {
        &&& (self.current_state == PetState::Celebrating) == (self.celebration_timer is Some)
        &&& self.current_state != PetState::Celebrating ==> self.previous_state is None
        &&& self.previous_state != Some(PetState::Celebrating)
        &&& self.celebration_timer matches Some(t) ==> t <= CELEBRATION_NANOS
    }

    /// The state after `event` is observed; `class_lower` and `title_lower`
    /// are what lower-casing gives for a window event's class and title.
    pub open spec fn after_event_lowered(
        self,
        event: TelemetryEvent,
        class_lower: Seq<char>,
        title_lower: Seq<char>,
    ) -> FsmState {
        match event {
            TelemetryEvent::CpuUsage(cpu) => FsmState { cpu_usage: cpu, ..self },
            TelemetryEvent::IdleTime(idle) => FsmState { idle_time: idle, ..self },
            TelemetryEvent::ActiveWindow { .. } => FsmState {
                is_ide_active: names_ide(class_lower, title_lower),
                ..self
            },
            TelemetryEvent::DevCommit { .. } => {
                if self.current_state != PetState::Celebrating {
                    FsmState {
                        previous_state: Some(self.current_state),
                        current_state: PetState::Celebrating,
                        celebration_timer: Some(CELEBRATION_NANOS),
                        ..self
                    }
                } else {
                    FsmState { celebration_timer: Some(CELEBRATION_NANOS), ..self }
                }
            },
            _ => self,
        }
    }

    /// The state after `event` is observed.
    pub open spec fn after_event(self, event: TelemetryEvent) -> FsmState {
        match event {
            TelemetryEvent::ActiveWindow { class, title } => self.after_event_lowered(
                event,
                lowercase(class@),
                lowercase(title@),
            ),
            _ => self.after_event_lowered(event, Seq::empty(), Seq::empty()),
        }
    }

    /// The high-CPU tracker after `dt` nanoseconds: it grows while the CPU
    /// is above 85 % and starts again from zero otherwise.
    pub open spec fn after_cpu_tracking(self, dt: int) -> FsmState {
        if self.cpu_usage.above_high() {
            FsmState { distressed_high_cpu_duration: (self.distressed_high_cpu_duration + dt) as u128, ..self }
        } else {
            FsmState { distressed_high_cpu_duration: 0, ..self }
        }
    }

    /// A running celebration after `dt` nanoseconds: once its timer runs
    /// out, the pet returns to the state it celebrated from (idle if none).
    pub open spec fn after_celebration_timer(self, dt: int) -> FsmState {
        if self.current_state == PetState::Celebrating {
            match self.celebration_timer {
                Some(t) => if t <= dt {
                    FsmState {
                        celebration_timer: None,
                        current_state: match self.previous_state {
                            Some(p) => p,
                            None => PetState::Idle,
                        },
                        previous_state: None,
                        ..self
                    }
                } else {
                    FsmState { celebration_timer: Some((t - dt) as u128), ..self }
                },
                None => self,
            }
        } else {
            self
        }
    }

    /// The sleep condition: idle for over five minutes, or energy below
    /// ten points.
    pub open spec fn sleepy(self, vitals: VitalsVector) -> bool {
        self.idle_time > SLEEP_AFTER_IDLE_SECS || vitals.energy < SLEEP_BELOW_ENERGY
    }

    /// The transition rules, in priority order: the sleep condition puts
    /// the pet to sleep (ending any celebration); a sleeping pet wakes to
    /// idle once the user is active and energy is back above 30 points; a
    /// celebration is left alone; a CPU busy for over a minute distresses
    /// the pet, which calms down once the CPU is at 85 % or below; otherwise
    /// the pet works while an editor is focused and idles when not.
    pub open spec fn after_transition(self, vitals: VitalsVector) -> FsmState {
        if self.sleepy(vitals) {
            if self.current_state != PetState::Sleeping {
                if self.current_state == PetState::Celebrating {
                    FsmState {
                        celebration_timer: None,
                        previous_state: None,
                        current_state: PetState::Sleeping,
                        ..self
                    }
                } else {
                    FsmState { current_state: PetState::Sleeping, ..self }
                }
            } else {
                self
            }
        } else if self.current_state == PetState::Sleeping {
            if self.idle_time < WAKE_BELOW_IDLE_SECS && vitals.energy > WAKE_ABOVE_ENERGY {
                FsmState { current_state: PetState::Idle, ..self }
            } else {
                self
            }
        } else if self.current_state != PetState::Celebrating {
            if self.distressed_high_cpu_duration > DISTRESS_AFTER_NANOS {
                FsmState { current_state: PetState::Distressed, ..self }
            } else if self.current_state == PetState::Distressed {
                if !self.cpu_usage.above_high() {
                    FsmState {
                        current_state: if self.is_ide_active {
                            PetState::Working
                        } else {
                            PetState::Idle
                        },
                        ..self
                    }
                } else {
                    self
                }
            } else if self.is_ide_active {
                FsmState { current_state: PetState::Working, ..self }
            } else {
                FsmState { current_state: PetState::Idle, ..self }
            }
        } else {
            self
        }
    }

    /// The state after a tick of `dt` nanoseconds with the given vitals.
    pub open spec fn after_update(self, dt: int, vitals: VitalsVector) -> FsmState {
        self.after_cpu_tracking(dt).after_celebration_timer(dt).after_transition(vitals)
    }

    /// A tick of `dt` nanoseconds is one that `update` accepts: it is a
    /// `Duration`, and the high-CPU tracker does not outgrow one.
    pub open spec fn tick_fits(self, dt: int) -> bool {
        &&& dt <= max_duration_nanos()
        &&& self.cpu_usage.above_high() ==> self.distressed_high_cpu_duration + dt
            <= max_duration_nanos()
    }

    /// A new machine: the pet is idle and nothing has been observed yet.
    pub fn new() -> (s: Self)
        ensures
            s == FsmState::initial(),
            s.wf(),
    {
        FsmState {
            current_state: PetState::Idle,
            previous_state: None,
            celebration_timer: None,
            distressed_high_cpu_duration: 0,
            idle_time: 0,
            cpu_usage: CpuLoad { busy: 0, total: 0 },
            is_ide_active: false,
        }
    }

    /// Observes one telemetry event; returns whether the pet's state changed.
    pub fn handle_event(&mut self, event: &TelemetryEvent) -> (changed: bool)
        ensures
            *final(self) == old(self).after_event(*event),
            changed == (final(self).current_state != old(self).current_state),
            old(self).wf() ==> final(self).wf(),
    {
        let state_before = self.current_state;
        match event {
            TelemetryEvent::CpuUsage(cpu) => {
                self.cpu_usage = *cpu;
            },
            TelemetryEvent::IdleTime(idle) => {
                self.idle_time = *idle;
            },
            TelemetryEvent::ActiveWindow { class, title } => {
                let class_lower = to_lowercase_chars(class.as_str());
                let title_lower = to_lowercase_chars(title.as_str());
                self.is_ide_active = mentions_ide_keyword(&class_lower, &title_lower);
            },
            TelemetryEvent::DevCommit { .. } => {
                if self.current_state != PetState::Celebrating {
                    self.previous_state = Some(self.current_state);
                    self.current_state = PetState::Celebrating;
                    self.celebration_timer = Some(CELEBRATION_NANOS);
                } else {
                    self.celebration_timer = Some(CELEBRATION_NANOS);
                }
            },
            _ => {},
        }
        self.current_state != state_before
    }

    /// Advances the machine by a tick of `dt_nanos` nanoseconds with the
    /// pet's current vitals; returns whether the pet's state changed.
    pub fn update(&mut self, dt_nanos: u128, vitals: &VitalsVector) -> (changed: bool)
        requires
            old(self).tick_fits(dt_nanos as int),
        ensures
            *final(self) == old(self).after_update(dt_nanos as int, *vitals),
            changed == (final(self).current_state != old(self).current_state),
            old(self).wf() ==> final(self).wf(),
    {
        let initial_state = self.current_state;

        if self.cpu_usage.is_high() {
            self.distressed_high_cpu_duration = self.distressed_high_cpu_duration + dt_nanos;
        } else {
            self.distressed_high_cpu_duration = 0;
        }

        if self.current_state == PetState::Celebrating {
            if let Some(timer) = self.celebration_timer {
                if timer <= dt_nanos {
                    self.celebration_timer = None;
                    let target = match self.previous_state {
                        Some(p) => p,
                        None => PetState::Idle,
                    };
                    self.previous_state = None;
                    self.current_state = target;
                } else {
                    self.celebration_timer = Some(timer - dt_nanos);
                }
            }
        }

        if self.idle_time > SLEEP_AFTER_IDLE_SECS || vitals.energy < SLEEP_BELOW_ENERGY {
            if self.current_state != PetState::Sleeping {
                if self.current_state == PetState::Celebrating {
                    self.celebration_timer = None;
                    self.previous_state = None;
                }
                self.current_state = PetState::Sleeping;
            }
        } else if self.current_state == PetState::Sleeping {
            if self.idle_time < WAKE_BELOW_IDLE_SECS && vitals.energy > WAKE_ABOVE_ENERGY {
                self.current_state = PetState::Idle;
            }
        } else if self.current_state != PetState::Celebrating {
            if self.distressed_high_cpu_duration > DISTRESS_AFTER_NANOS {
                self.current_state = PetState::Distressed;
            } else if self.current_state == PetState::Distressed {
                if !self.cpu_usage.is_high() {
                    self.current_state = if self.is_ide_active {
                        PetState::Working
                    } else {
                        PetState::Idle
                    };
                }
            } else if self.is_ide_active {
                self.current_state = PetState::Working;
            } else {
                self.current_state = PetState::Idle;
            }
        }

        self.current_state != initial_state
    }
}

/// A commit starts a celebration of five seconds that remembers the state
/// the pet was in; a commit during a celebration restarts its timer and
/// keeps the state to return to.
pub proof fn law_commit_starts_celebration(s: FsmState, event: TelemetryEvent)
    requires
        event is DevCommit,
    ensures
        s.after_event(event).current_state == PetState::Celebrating,
        s.after_event(event).celebration_timer == Some(CELEBRATION_NANOS),
        s.current_state != PetState::Celebrating ==> s.after_event(event).previous_state == Some(
            s.current_state,
        ),
        s.current_state == PetState::Celebrating ==> s.after_event(event).previous_state
            == s.previous_state,
{
}

/// Only a commit changes the pet's state when an event is observed.
pub proof fn law_only_commits_change_state_on_events(s: FsmState, event: TelemetryEvent)
    requires
        !(event is DevCommit),
    ensures
        s.after_event(event).current_state == s.current_state,
        s.after_event(event).previous_state == s.previous_state,
        s.after_event(event).celebration_timer == s.celebration_timer,
{
}

/// Sleep comes first: whenever the sleep condition holds, a tick leaves
/// the pet asleep with no celebration pending.
pub proof fn law_sleep_overrides_everything(s: FsmState, dt: int, vitals: VitalsVector)
    requires
        s.wf(),
        s.sleepy(vitals),
    ensures
        s.after_update(dt, vitals).current_state == PetState::Sleeping,
        s.after_update(dt, vitals).celebration_timer is None,
        s.after_update(dt, vitals).previous_state is None,
{
}

/// A celebration lasts exactly as long as its timer: a tick shorter than
/// the time left keeps the pet celebrating with that much less left, and a
/// tick that reaches it ends the celebration.
pub proof fn law_celebration_lasts_its_timer(s: FsmState, dt: int, vitals: VitalsVector)
    requires
        s.wf(),
        s.current_state == PetState::Celebrating,
        !s.sleepy(vitals),
        0 <= dt,
    ensures
        dt < s.celebration_timer.unwrap() ==> s.after_update(dt, vitals).current_state
            == PetState::Celebrating && s.after_update(dt, vitals).celebration_timer == Some(
            (s.celebration_timer.unwrap() - dt) as u128,
        ),
        dt >= s.celebration_timer.unwrap() ==> s.after_update(dt, vitals).current_state
            != PetState::Celebrating && s.after_update(dt, vitals).celebration_timer is None,
{
}

/// When a celebration ends and nothing else applies, the pet is back in the
/// state it celebrated from: working stays working while an editor is
/// focused, and any other state settles as the rules for it say.
pub proof fn law_celebration_returns_to_work(s: FsmState, dt: int, vitals: VitalsVector)
    requires
        s.wf(),
        s.current_state == PetState::Celebrating,
        s.previous_state == Some(PetState::Working),
        !s.sleepy(vitals),
        dt >= s.celebration_timer.unwrap(),
        s.is_ide_active,
        !s.cpu_usage.above_high(),
    ensures
        s.after_update(dt, vitals).current_state == PetState::Working,
{
}

/// A sleeping pet only ever wakes to idle, and only once the user has been
/// active within ten seconds and its energy is above 30 points.
pub proof fn law_wakes_only_to_idle(s: FsmState, dt: int, vitals: VitalsVector)
    requires
        s.current_state == PetState::Sleeping,
        s.after_update(dt, vitals).current_state != PetState::Sleeping,
    ensures
        s.after_update(dt, vitals).current_state == PetState::Idle,
        s.idle_time < WAKE_BELOW_IDLE_SECS,
        vitals.energy > WAKE_ABOVE_ENERGY,
{
}

/// Outside a celebration, the pet becomes distressed only after the CPU has
/// stayed above 85 % for more than a minute of ticks. (A celebration that
/// began while the pet was distressed returns it to distress.)
pub proof fn law_distress_needs_a_busy_minute(s: FsmState, dt: int, vitals: VitalsVector)
    requires
        s.wf(),
        0 <= dt,
        s.tick_fits(dt),
        s.current_state != PetState::Distressed,
        s.current_state != PetState::Celebrating,
        s.after_update(dt, vitals).current_state == PetState::Distressed,
    ensures
        s.cpu_usage.above_high(),
        s.distressed_high_cpu_duration + dt > DISTRESS_AFTER_NANOS,
{
}

/// The high-CPU tracker counts exactly the time since the CPU last was at
/// 85 % or below.
pub proof fn law_cpu_tracker(s: FsmState, dt: int, vitals: VitalsVector)
    requires
        0 <= dt,
        s.tick_fits(dt),
    ensures
        s.cpu_usage.above_high() ==> s.after_update(dt, vitals).distressed_high_cpu_duration
            == s.distressed_high_cpu_duration + dt,
        !s.cpu_usage.above_high() ==> s.after_update(dt, vitals).distressed_high_cpu_duration
            == 0,
{
}

/// Outside sleep and celebration, a CPU that has stayed above 85 % for more
/// than a minute of ticks distresses the pet, whatever window is focused.
pub proof fn law_busy_minute_distresses(s: FsmState, dt: int, vitals: VitalsVector)
    requires
        s.wf(),
        0 <= dt,
        s.tick_fits(dt),
        !s.sleepy(vitals),
        s.current_state != PetState::Sleeping,
        s.current_state != PetState::Celebrating,
        s.cpu_usage.above_high(),
        s.distressed_high_cpu_duration + dt > DISTRESS_AFTER_NANOS,
    ensures
        s.after_update(dt, vitals).current_state == PetState::Distressed,
{
}

/// An awake pet that is not celebrating and has not had a busy minute:
/// a distressed pet stays distressed while the CPU is above 85 %; otherwise
/// the pet works while an editor or terminal is focused and idles when not.
pub proof fn law_awake_pet_settles(s: FsmState, dt: int, vitals: VitalsVector)
    requires
        s.wf(),
        0 <= dt,
        s.tick_fits(dt),
        !s.sleepy(vitals),
        s.current_state != PetState::Sleeping,
        s.current_state != PetState::Celebrating,
        !(s.cpu_usage.above_high() && s.distressed_high_cpu_duration + dt > DISTRESS_AFTER_NANOS),
    ensures
        s.current_state == PetState::Distressed && s.cpu_usage.above_high() ==> s.after_update(
            dt,
            vitals,
        ).current_state == PetState::Distressed,
        !(s.current_state == PetState::Distressed && s.cpu_usage.above_high()) ==> s.after_update(
            dt,
            vitals,
        ).current_state == (if s.is_ide_active {
            PetState::Working
        } else {
            PetState::Idle
        }),
{
}

/// A sleeping pet wakes to idle once the user has been active within ten
/// seconds and its energy is above 30 points, unless the sleep condition
/// still holds; otherwise it sleeps on.
pub proof fn law_sleeping_pet_wakes(s: FsmState, dt: int, vitals: VitalsVector)
    requires
        s.current_state == PetState::Sleeping,
    ensures
        !s.sleepy(vitals) && s.idle_time < WAKE_BELOW_IDLE_SECS && vitals.energy > WAKE_ABOVE_ENERGY
            ==> s.after_update(dt, vitals).current_state == PetState::Idle,
        !(!s.sleepy(vitals) && s.idle_time < WAKE_BELOW_IDLE_SECS && vitals.energy
            > WAKE_ABOVE_ENERGY) ==> s.after_update(dt, vitals).current_state == PetState::Sleeping,
{
}

/// When a celebration ends within a tick, the tick goes on as it would for
/// a pet in the state the celebration began from (idle if none), with no
/// celebration pending.
pub proof fn law_celebration_end_resumes_previous_state(s: FsmState, dt: int, vitals: VitalsVector)
    requires
        s.wf(),
        s.current_state == PetState::Celebrating,
        dt >= s.celebration_timer.unwrap(),
    ensures
        s.after_update(dt, vitals) == (FsmState {
            current_state: match s.previous_state {
                Some(p) => p,
                None => PetState::Idle,
            },
            previous_state: None,
            celebration_timer: None,
            ..s
        }).after_update(dt, vitals),
{
}

/// Observing an event records what it reports and nothing else: a CPU
/// reading, the idle time, or whether the focused window's lower-cased
/// class or title names one of the editors and terminals (`code`, `zed`,
/// `nvim`, `neovim`, `alacritty`, `kitty`, `wezterm`); battery levels and
/// clicks leave the machine as it was.
pub proof fn law_events_record_what_they_report(s: FsmState, event: TelemetryEvent)
    ensures
        event matches TelemetryEvent::CpuUsage(c) ==> s.after_event(event) == (FsmState {
            cpu_usage: c,
            ..s
        }),
        event matches TelemetryEvent::IdleTime(i) ==> s.after_event(event) == (FsmState {
            idle_time: i,
            ..s
        }),
        event is BatteryLevel ==> s.after_event(event) == s,
        event is UserClick ==> s.after_event(event) == s,
        event matches TelemetryEvent::ActiveWindow { class, title } ==> ({
            let c = lowercase(class@);
            let t = lowercase(title@);
            s.after_event(event) == (FsmState {
                is_ide_active: seq_contains(c, "code"@) || seq_contains(t, "code"@)
                    || seq_contains(c, "zed"@) || seq_contains(t, "zed"@) || seq_contains(
                    c,
                    "nvim"@,
                ) || seq_contains(t, "nvim"@) || seq_contains(c, "neovim"@) || seq_contains(
                    t,
                    "neovim"@,
                ) || seq_contains(c, "alacritty"@) || seq_contains(t, "alacritty"@)
                    || seq_contains(c, "kitty"@) || seq_contains(t, "kitty"@) || seq_contains(
                    c,
                    "wezterm"@,
                ) || seq_contains(t, "wezterm"@),
                ..s
            })
        }),
{
    if let TelemetryEvent::ActiveWindow { class, title } = event {
        assert(ide_keywords().len() == 7);
        assert(ide_keywords()[0] == "code"@ && ide_keywords()[1] == "zed"@);
        assert(ide_keywords()[2] == "nvim"@ && ide_keywords()[3] == "neovim"@);
        assert(ide_keywords()[4] == "alacritty"@ && ide_keywords()[5] == "kitty"@);
        assert(ide_keywords()[6] == "wezterm"@);
    }
}

impl Default for FsmState {
    fn default() -> (s: Self)
        ensures
            s == FsmState::initial(),
    {
        Self::new()
    }
}

} // verus!
