use vstd::prelude::*;

verus! {

/// The behavioural state of the pet.
#[derive(Debug, Clone, Copy, PartialEq, Eq, Hash, Structural)]
pub enum PetState {
    Idle,
    Walking,
    Working,
    Sleeping,
    Distressed,
    Celebrating,
}

/// One vital point expressed in the fixed-point unit of [`VitalsVector`].
pub const VITAL_UNIT: i64 = 1_000_000;

/// Upper bound of every vital: one hundred points.
pub const VITAL_MAX: i64 = 100_000_000;

/// CPU usage, in percent, above which the machine is under pressure.
pub const HIGH_CPU_PERCENT: u64 = 85;

/// A CPU usage reading, kept as the exact ratio it is measured as: `busy`
/// units of CPU time out of `total`, that is `100 * busy / total` percent.
/// A reading over no time at all (`total == 0`) is 0 %.
#[derive(Debug, Clone, Copy, PartialEq, Eq, Structural)]
pub struct CpuLoad {
    pub busy: u64,
    pub total: u64,
}

impl CpuLoad {
    /// The reading is above 85 %: `busy / total > 85 / 100`.
    pub open spec fn above_high(self) -> bool {
        self.total > 0 && 100 * self.busy > HIGH_CPU_PERCENT * self.total
    }

    /// Whether the reading is above 85 %, compared exactly.
    pub fn is_high(&self) -> (r: bool)
        ensures
            r == self.above_high(),
    {
        let busy = self.busy as u128;
        let total = self.total as u128;
        assert(HIGH_CPU_PERCENT * total <= 85 * u64::MAX) by (nonlinear_arith)
            requires
                HIGH_CPU_PERCENT == 85,
                total <= u64::MAX,
        ;
        self.total > 0 && busy * 100 > HIGH_CPU_PERCENT as u128 * total
    }
}

/// The pet's vitals, each in millionths of a point (a vital ranges over
/// `0 ..= 100` points, that is `0 ..= VITAL_MAX`).
#[derive(Debug, Clone, Copy, PartialEq, Eq, Structural)]
pub struct VitalsVector {
    pub energy: i64,
    pub hunger: i64,
    pub focus: i64,
    pub affection: i64,
    pub stress: i64,
}

impl VitalsVector {
    /// Every vital lies within `0 ..= VITAL_MAX`.
    pub open spec fn in_range(self) -> bool {
        &&& 0 <= self.energy <= VITAL_MAX
        &&& 0 <= self.hunger <= VITAL_MAX
        &&& 0 <= self.focus <= VITAL_MAX
        &&& 0 <= self.affection <= VITAL_MAX
        &&& 0 <= self.stress <= VITAL_MAX
    }

    /// The vitals of a freshly hatched pet: full energy, no hunger,
    /// half focus, 80 points of affection and no stress.
    pub open spec fn initial() -> VitalsVector {
        VitalsVector {
            energy: 100_000_000,
            hunger: 0,
            focus: 50_000_000,
            affection: 80_000_000,
            stress: 0,
        }
    }
}

impl Default for VitalsVector {
    fn default() -> (v: Self)
        ensures
            v == VitalsVector::initial(),
    {
        VitalsVector {
            energy: 100 * VITAL_UNIT,
            hunger: 0,
            focus: 50 * VITAL_UNIT,
            affection: 80 * VITAL_UNIT,
            stress: 0,
        }
    }
}

/// A piece of telemetry about the user's desktop.
#[derive(Debug, Clone, PartialEq)]
pub enum TelemetryEvent {
    CpuUsage(CpuLoad),
    /// Idle seconds.
    IdleTime(u32),
    BatteryLevel(Option<u8>),
    ActiveWindow { class: String, title: String },
    DevCommit { repo: String, hash: String },
    UserClick { x: i32, y: i32 },
}

/// The focused window's class and title.
#[derive(Debug, Clone, PartialEq, Eq)]
pub struct ActiveWindowInfo {
    pub class: String,
    pub title: String,
}

impl ActiveWindowInfo {
    /// What the window manager's reply says of the focused window: its
    /// class and title, or `unknown` for both when there was no usable reply.
    pub fn from_reply(reply: Option<(String, String)>) -> (r: Self)
        ensures
            match reply {
                Some((class, title)) => r.class == class && r.title == title,
                None => r.class@ == "unknown"@ && r.title@ == "unknown"@,
            },
    {
        match reply {
            Some((class, title)) => ActiveWindowInfo { class, title },
            None => ActiveWindowInfo {
                class: String::from_str("unknown"),
                title: String::from_str("unknown"),
            },
        }
    }
}

/// What the renderer is told to draw.
#[derive(Debug, Clone)]
pub struct RenderFrameState {
    pub state: PetState,
    pub vitals: VitalsVector,
    pub dialogue: Option<String>,
    pub timestamp_ms: u64,
}

} // verus!
