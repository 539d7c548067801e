//! The discrete side of the motion controller: which waveform a name
//! stands for, how the phase anchor follows a change of configuration, the
//! count of configurations, and the travel range that set-points are mapped
//! into.

use vstd::prelude::*;
use vstd::string::*;

verus! {

/// Power limit that the servo is given after homing.
pub const RUN_MAX_POWER: u16 = 350;

/// Acceleration that the servo is given after homing.
pub const RUN_ACCELERATION: u16 = 40000;

/// Position ring ratio that the servo is given after homing.
pub const RUN_POSITION_RING_RATIO: u16 = 3000;

/// Speed ring ratio that the servo is given after homing.
pub const RUN_SPEED_RING_RATIO: u16 = 3000;

/// The end of the stroke that a reduced depth stays at.
#[derive(Clone, Copy, Debug, PartialEq, Eq, Structural)]
pub enum DepthDirection {
    /// The window is `[0, depth]`.
    Top,
    /// The window is `[1 - depth, 1]`.
    Bottom,
}

impl DepthDirection {
    /// The direction that the configuration flag `depth_top` stands for.
    pub fn from_depth_top(depth_top: bool) -> (r: Self)
        ensures
            r == if depth_top {
                DepthDirection::Top
            } else {
                DepthDirection::Bottom
            },
    {
        if depth_top {
            DepthDirection::Top
        } else {
            DepthDirection::Bottom
        }
    }
}

/// The waveforms.
#[derive(Clone, Copy, Debug, PartialEq, Eq, Structural)]
pub enum WaveKind {
    Sine,
    Thrust,
    Spline,
}

/// The waveform that a configuration names. A name that is none of the
/// three stands for the sine.
pub open spec fn wave_named(name: Seq<char>) -> WaveKind {
    if name == "thrust"@ {
        WaveKind::Thrust
    } else if name == "spline"@ {
        WaveKind::Spline
    } else {
        WaveKind::Sine
    }
}

/// Whether two strings hold the same text.
pub fn same_text(a: &str, b: &str) -> (r: bool)
    ensures
        r == (a@ == b@),
{
    let a = a.to_owned();
    let b = b.to_owned();
    a == b
}

impl WaveKind {
    /// The waveform that a configuration names.
    pub fn from_name(name: &str) -> (r: Self)
        ensures
            r == wave_named(name@),
    {
        if same_text(name, "thrust") {
            WaveKind::Thrust
        } else if same_text(name, "spline") {
            WaveKind::Spline
        } else {
            WaveKind::Sine
        }
    }

    /// The name of the waveform in a configuration.
    pub fn name(&self) -> (r: &'static str)
        ensures
            r@ == match self {
                WaveKind::Sine => "sine"@,
                WaveKind::Thrust => "thrust"@,
                WaveKind::Spline => "spline"@,
            },
    {
        match self {
            WaveKind::Sine => "sine",
            WaveKind::Thrust => "thrust",
            WaveKind::Spline => "spline",
        }
    }
}

/// Travel range of the axis in encoder counts, which normalized positions
/// are mapped into.
#[derive(Clone, Copy, Debug, PartialEq, Eq)]
pub struct PositionGenerator {
    pos_min: i32,
    pos_max: i32,
}

impl PositionGenerator {
    /// The lower end of the range.
    pub closed spec fn min(&self) -> int {
        self.pos_min as int
    }

    /// The upper end of the range.
    pub closed spec fn max(&self) -> int {
        self.pos_max as int
    }

    /// The range from `pos_min` to `pos_max`. Before homing both are zero.
    pub fn new(pos_min: i32, pos_max: i32) -> (r: Self)
        ensures
            r.min() == pos_min,
            r.max() == pos_max,
    {
        Self { pos_min, pos_max }
    }

    pub fn pos_min(&self) -> (r: i32)
        ensures
            r == self.min(),
    {
        self.pos_min
    }

    pub fn pos_max(&self) -> (r: i32)
        ensures
            r == self.max(),
    {
        self.pos_max
    }

    /// The length of the range in counts: what a normalized position is
    /// multiplied by.
    pub fn range(&self) -> (r: i64)
        ensures
            r == self.max() - self.min(),
    {
        self.pos_max as i64 - self.pos_min as i64
    }

    /// The distance of `position` from the lower end of the range: what is
    /// divided by the length of the range to normalize a position.
    pub fn offset(&self, position: i32) -> (r: i64)
        ensures
            r == position - self.min(),
    {
        position as i64 - self.pos_min as i64
    }

    /// Whether `position` lies in the range.
    pub fn contains(&self, position: i32) -> (r: bool)
        ensures
            r == (self.min() <= position <= self.max()),
    {
        self.pos_min <= position && position <= self.pos_max
    }
}


/// Number of entries of the table that a spline is sampled into.
pub const SPLINE_RESOLUTION: usize = 1500;

/// The control points on either side of point `i` of a closed curve through
/// `n` points: the one before and the one after, the last point being
/// followed by the first.
pub fn ring_neighbours(i: usize, n: usize) -> (r: (usize, usize))
    requires
        i < n,
    ensures
        r.0 == (i + n - 1) % (n as int),
        r.1 == (i + 1) % (n as int),
        r.0 < n,
        r.1 < n,
{
    let before: usize = if i == 0 {
        n - 1
    } else {
        i - 1
    };
    let after: usize = if i + 1 == n {
        0
    } else {
        i + 1
    };
    assert((i + n - 1) % (n as int) == before) by (nonlinear_arith)
        requires
            i < n,
            before == if i == 0 {
                n - 1
            } else {
                i - 1
            },
    ;
    assert((i + 1) % (n as int) == after) by (nonlinear_arith)
        requires
            i < n,
            after == if i + 1 == n {
                0
            } else {
                i + 1
            },
    ;
    (before, after)
}

/// The segment of a closed curve through `n` points that a phase falls
/// into, by the control points at its ends. `raw` is the phase divided by
/// the width of a segment and rounded down; the last segment takes what
/// lies beyond it, and ends at the first point.
pub fn segment_ends(raw: usize, n: usize) -> (r: (usize, usize))
    requires
        n > 0,
    ensures
        r.0 == if raw < n {
            raw as int
        } else {
            n - 1
        },
        r.1 == (r.0 + 1) % (n as int),
        r.0 < n,
        r.1 < n,
{
    let start: usize = if raw < n {
        raw
    } else {
        n - 1
    };
    (start, ring_neighbours(start, n).1)
}

/// The two entries of a table of `resolution` entries between which a
/// phase is interpolated. `raw` is the phase times `resolution - 1`, rounded
/// down. From the last entry on there is nothing to interpolate: both are
/// the last entry.
pub fn table_cells(raw: usize, resolution: usize) -> (r: (usize, usize))
    requires
        resolution > 0,
    ensures
        r.0 == if raw < resolution - 1 {
            raw as int
        } else {
            resolution - 1
        },
        r.1 == if raw < resolution - 1 {
            raw + 1
        } else {
            resolution - 1
        },
        r.0 <= r.1 < resolution,
{
    if raw < resolution - 1 {
        (raw, raw + 1)
    } else {
        (resolution - 1, resolution - 1)
    }
}

/// What a new configuration changes, as far as the phase anchor depends on
/// it.
#[derive(Clone, Copy, Debug, PartialEq, Eq, Structural)]
pub struct ConfigChange {
    /// The waveform or the spline points differ.
    pub wave_changed: bool,
    /// The sharpness differs by more than 0.001.
    pub sharpness_changed: bool,
    /// The tempo differs by more than 0.001.
    pub bpm_changed: bool,
    /// Whether the new configuration is paused.
    pub paused: bool,
}

/// How the phase anchor is moved when a configuration takes effect. Each
/// rule uses the new tempo.
#[derive(Clone, Copy, Debug, PartialEq, Eq, Structural)]
pub enum Reanchor {
    /// The anchor stays.
    Keep,
    /// To the phase at which the new waveform gives what the old one gave
    /// last.
    MatchOutput,
    /// To the phase at which the waveform gives the position that the pause
    /// has reached.
    Resume,
    /// To the same phase at the new tempo.
    KeepPhase,
}

/// What is to be done when a configuration takes effect.
#[derive(Clone, Copy, Debug, PartialEq, Eq, Structural)]
pub struct Plan {
    /// The waveform is built anew.
    pub rebuild: bool,
    pub reanchor: Reanchor,
}

impl ConfigChange {
    /// Whether the waveform is built anew.
    pub open spec fn rebuilds(self) -> bool {
        self.wave_changed || self.sharpness_changed
    }

    /// The rule that applies: the first of the three that matches.
    pub open spec fn reanchor(self, was_paused: bool) -> Reanchor {
        if self.rebuilds() && !self.paused {
            Reanchor::MatchOutput
        } else if !self.paused && was_paused {
            Reanchor::Resume
        } else if self.bpm_changed && !self.paused {
            Reanchor::KeepPhase
        } else {
            Reanchor::Keep
        }
    }

    /// What is to be done when the configuration takes effect on a
    /// controller that was paused or not.
    pub open spec fn plan(self, was_paused: bool) -> Plan {
        Plan { rebuild: self.rebuilds(), reanchor: self.reanchor(was_paused) }
    }
}

/// The phase anchor is never moved into a pause, and always moved out of
/// one: a configuration that is paused keeps the anchor, and one that ends
/// a pause finds the phase from an output, never from the clock.
pub proof fn law_reanchor(change: ConfigChange, was_paused: bool)
    ensures
        change.paused ==> change.reanchor(was_paused) == Reanchor::Keep,
        was_paused && !change.paused ==> change.reanchor(was_paused) == Reanchor::MatchOutput
            || change.reanchor(was_paused) == Reanchor::Resume,
        change.reanchor(was_paused) == Reanchor::KeepPhase ==> !was_paused && !change.rebuilds(),
{
}

/// The life of a controller.
#[derive(Clone, Copy, Debug, PartialEq, Eq, Structural)]
pub enum Lifecycle {
    Unhomed,
    Homing,
    Running,
    Paused,
    /// Homing or the set-up after it has failed. Nothing leads out of here.
    Failed,
}

/// A controller as contracts see it.
pub struct ControllerState {
    pub lifecycle: Lifecycle,
    pub paused: bool,
    /// The number of configurations that have taken effect.
    pub version: nat,
}

impl ControllerState {
    /// A controller that has done nothing yet.
    pub open spec fn fresh(paused: bool) -> Self {
        ControllerState { lifecycle: Lifecycle::Unhomed, paused, version: 0 }
    }

    /// Where a homed controller stands with the given pause flag.
    pub open spec fn moving(paused: bool) -> Lifecycle {
        if paused {
            Lifecycle::Paused
        } else {
            Lifecycle::Running
        }
    }

    /// The motor is homed and follows set-points.
    pub open spec fn ready(self) -> bool {
        self.lifecycle is Running || self.lifecycle is Paused
    }

    /// Homing begins, if it has not begun before.
    pub open spec fn init_motor(self) -> Self {
        if self.lifecycle is Unhomed {
            ControllerState { lifecycle: Lifecycle::Homing, ..self }
        } else {
            self
        }
    }

    /// Homing and the set-up after it are over.
    pub open spec fn init_finished(self, success: bool) -> Self {
        if self.lifecycle is Homing {
            ControllerState {
                lifecycle: if success {
                    Self::moving(self.paused)
                } else {
                    Lifecycle::Failed
                },
                ..self
            }
        } else {
            self
        }
    }

    /// A configuration takes effect: it is counted, and a homed controller
    /// runs or pauses as it says.
    pub open spec fn set_config(self, change: ConfigChange) -> Self {
        ControllerState {
            lifecycle: if self.ready() {
                Self::moving(change.paused)
            } else {
                self.lifecycle
            },
            paused: change.paused,
            version: self.version + 1,
        }
    }

    /// The controller after the configurations that gave `changes` have
    /// taken effect in turn.
    pub open spec fn after(self, changes: Seq<ConfigChange>) -> Self
        decreases changes.len(),
    {
        if changes.len() == 0 {
            self
        } else {
            self.after(changes.drop_last()).set_config(changes.last())
        }
    }
}

/// The version counts the configurations: after `n` of them have taken
/// effect it is higher by `n`.
pub proof fn law_version_counts(state: ControllerState, changes: Seq<ConfigChange>)
    ensures
        state.after(changes).version == state.version + changes.len(),
    decreases changes.len(),
{
    if changes.len() > 0 {
        law_version_counts(state, changes.drop_last());
    }
}

/// The version never goes down, whatever happens to a controller.
pub proof fn law_version_monotone(state: ControllerState, change: ConfigChange, success: bool)
    ensures
        state.init_motor().version == state.version,
        state.init_finished(success).version == state.version,
        state.set_config(change).version > state.version,
{
}

/// A controller moves through its life in one direction: it is homed once,
/// a failure is final, and once homed it is running exactly when its
/// configuration is not paused.
pub proof fn law_lifecycle(state: ControllerState, change: ConfigChange, success: bool)
    ensures
        state.lifecycle is Failed ==> state.set_config(change).lifecycle is Failed
            && state.init_motor().lifecycle is Failed && state.init_finished(
            success,
        ).lifecycle is Failed,
        state.ready() ==> state.init_motor() == state && state.init_finished(success) == state,
        state.ready() ==> state.set_config(change).lifecycle == ControllerState::moving(
            change.paused,
        ),
        state.set_config(change).ready() == state.ready(),
{
}

/// The discrete state of the motion controller.
pub struct MotorController {
    lifecycle: Lifecycle,
    paused: bool,
    config_version: u32,
}

impl View for MotorController {
    type V = ControllerState;

    closed spec fn view(&self) -> ControllerState {
        ControllerState {
            lifecycle: self.lifecycle,
            paused: self.paused,
            version: self.config_version as nat,
        }
    }
}

impl MotorController {
    /// A controller for a motor that has not been homed. `paused` is the
    /// pause flag of its configuration.
    pub fn new(paused: bool) -> (r: Self)
        ensures
            r@ == ControllerState::fresh(paused),
    {
        MotorController { lifecycle: Lifecycle::Unhomed, paused, config_version: 0 }
    }

    /// Homing begins.
    pub fn init_motor(&mut self)
        ensures
            final(self)@ == old(self)@.init_motor(),
    {
        match self.lifecycle {
            Lifecycle::Unhomed => {
                self.lifecycle = Lifecycle::Homing;
            },
            _ => {},
        }
    }

    /// Homing and the requests after it are over.
    pub fn init_finished(&mut self, success: bool)
        ensures
            final(self)@ == old(self)@.init_finished(success),
    {
        match self.lifecycle {
            Lifecycle::Homing => {
                self.lifecycle = if !success {
                    Lifecycle::Failed
                } else if self.paused {
                    Lifecycle::Paused
                } else {
                    Lifecycle::Running
                };
            },
            _ => {},
        }
    }

    /// A new configuration takes effect. The plan says what is to be done
    /// to the waveform and to the phase anchor.
    pub fn set_config(&mut self, change: ConfigChange) -> (plan: Plan)
        requires
            old(self)@.version < u32::MAX,
        ensures
            final(self)@ == old(self)@.set_config(change),
            plan == change.plan(old(self)@.paused),
    {
        let rebuild = change.wave_changed || change.sharpness_changed;
        let reanchor = if rebuild && !change.paused {
            Reanchor::MatchOutput
        } else if !change.paused && self.paused {
            Reanchor::Resume
        } else if change.bpm_changed && !change.paused {
            Reanchor::KeepPhase
        } else {
            Reanchor::Keep
        };
        match self.lifecycle {
            Lifecycle::Running | Lifecycle::Paused => {
                self.lifecycle = if change.paused {
                    Lifecycle::Paused
                } else {
                    Lifecycle::Running
                };
            },
            _ => {},
        }
        self.paused = change.paused;
        self.config_version = self.config_version + 1;
        Plan { rebuild, reanchor }
    }

    /// The number of configurations that have taken effect.
    pub fn get_config_version(&self) -> (r: u32)
        ensures
            r == self@.version,
    {
        self.config_version
    }

    /// Where the controller stands in its life.
    pub fn lifecycle(&self) -> (r: Lifecycle)
        ensures
            r == self@.lifecycle,
    {
        self.lifecycle
    }

    /// Whether set-points are eased towards the pause position, and not
    /// taken from the waveform.
    pub fn is_paused(&self) -> (r: bool)
        ensures
            r == self@.paused,
    {
        self.paused
    }
}

/// Time between two looks at the configuration version, in nanoseconds.
pub const SAVE_CHECK_NS: u128 = 200_000_000;

/// What the motion task remembers of the configuration that it has stored.
pub struct SaveTracker {
    saved_version: u32,
}

impl SaveTracker {
    /// The version of the configuration that the store holds.
    pub closed spec fn saved(&self) -> u32 {
        self.saved_version
    }

    /// A tracker for a store that holds the configuration of `version`.
    pub fn new(version: u32) -> (r: Self)
        ensures
            r.saved() == version,
    {
        SaveTracker { saved_version: version }
    }

    /// Whether it is time to look at the version: more than the interval
    /// has passed since the last look.
    pub fn check_due(elapsed_ns: u128) -> (r: bool)
        ensures
            r == (elapsed_ns > SAVE_CHECK_NS),
    {
        elapsed_ns > SAVE_CHECK_NS
    }

    /// Whether the configuration of `current` is to be stored: it is not
    /// the one that the store holds.
    pub fn save_due(&self, current: u32) -> (r: bool)
        ensures
            r == (current != self.saved()),
    {
        current != self.saved_version
    }

    /// The configuration of `version` has been stored.
    pub fn mark_saved(&mut self, version: u32)
        ensures
            final(self).saved() == version,
    {
        self.saved_version = version;
    }
}

} // verus!
