use vstd::prelude::*;
use vstd::string::*;
use crate::config::{SenseConfig, SenseConfigEvents, SenseEventConfig};
use crate::text::{append_decimal, decimal_digits};
use crate::util::{SenseVibrationLength, SenseVibrationStrength};

verus! {

/// The niri IPC events, with the fields that the event mapping reads.
#[derive(Debug, Clone, Copy, PartialEq, Eq)]
pub enum NiriEvent {
    WorkspaceActivated,
    WorkspacesChanged,
    WindowOpenedOrChanged,
    WindowClosed,
    WindowFocusChanged { id: Option<u64> },
    WindowLayoutsChanged,
    WindowUrgencyChanged,
    KeyboardLayoutsChanged,
    OverviewOpenedOrClosed { is_open: bool },
    ScreenshotCaptured,
    CastStartedOrChanged,
    CastStopped,
    ConfigLoaded,
    /// Any other event: niri-sense does not answer it.
    Other,
}

/// One vibration to run: every selected device is set to `strength_percent`
/// for `length_ms` milliseconds, then set back to 0.
#[derive(Debug, Clone, Copy, PartialEq, Eq)]
pub struct VibrationPlan {
    pub strength_percent: u8,
    pub length_ms: u64,
}

/// The devices that a vibration goes to: every device, or the one at a
/// position of the list of devices that the client knows.
#[derive(Debug, Clone, Copy, PartialEq, Eq)]
pub enum DeviceTargets {
    All,
    One(usize),
}

/// A step of the test run of the `test` command.
#[derive(Debug, Clone, Copy, PartialEq, Eq)]
pub enum TestStep {
    Vibrate(SenseVibrationStrength, SenseVibrationLength),
    Pause(u64),
}

/// The state that decides how events are answered.
pub struct Integration {
    config: SenseConfig,
    paused: bool,
    device_selected: i8,
    skip_event_count: u8,
    pub quit_flag: bool,
}

/// The abstract state of an `Integration`.
pub struct IntegrationView {
    pub config: SenseConfig,
    pub paused: bool,
    pub device_selected: i8,
    pub skip_event_count: u8,
    pub quit_flag: bool,
}

impl View for Integration {
    type V = IntegrationView;

    closed spec fn view(&self) -> IntegrationView {
        IntegrationView {
            config: self.config,
            paused: self.paused,
            device_selected: self.device_selected,
            skip_event_count: self.skip_event_count,
            quit_flag: self.quit_flag,
        }
    }
}

// ---------------------------------------------------------------- specification

pub open spec fn length_ms(c: SenseConfig, length: SenseVibrationLength) -> u64 {
    match length {
        SenseVibrationLength::Short => c.lengths.short,
        SenseVibrationLength::Medium => c.lengths.medium,
        SenseVibrationLength::Long => c.lengths.long,
        SenseVibrationLength::CustomA => c.lengths.custom_a,
        SenseVibrationLength::CustomB => c.lengths.custom_b,
    }
}

pub open spec fn strength_percent(c: SenseConfig, strength: SenseVibrationStrength) -> u8 {
    match strength {
        SenseVibrationStrength::Low => c.strengths.low,
        SenseVibrationStrength::Medium => c.strengths.medium,
        SenseVibrationStrength::High => c.strengths.high,
        SenseVibrationStrength::CustomA => c.strengths.custom_a,
        SenseVibrationStrength::CustomB => c.strengths.custom_b,
    }
}

/// A vibration is run only while connected to a server and not paused.
pub open spec fn vibration_plan(
    s: IntegrationView,
    connected: bool,
    strength: SenseVibrationStrength,
    length: SenseVibrationLength,
) -> Option<VibrationPlan> {
    if !connected || s.paused {
        None
    } else {
        Some(
            VibrationPlan {
                strength_percent: strength_percent(s.config, strength),
                length_ms: length_ms(s.config, length),
            },
        )
    }
}

/// Whether an event is swallowed by the repeat cooldown.
pub open spec fn skipped(s: IntegrationView, check_for_skip: bool) -> bool {
    check_for_skip && s.config.events.repeated_event_prevention && s.skip_event_count > 0
}

/// Answering one configured event: a swallowed event uses up one step of
/// the cooldown; an event that is off does nothing; any other event runs its
/// vibration (where one can run), and one subject to the cooldown (window
/// opened or changed, window layout, cast started or changed) sets the
/// cooldown to 3.
pub open spec fn mapped_event_step(
    s: IntegrationView,
    e: SenseEventConfig,
    check_for_skip: bool,
    connected: bool,
) -> (IntegrationView, Option<VibrationPlan>) {
    if skipped(s, check_for_skip) {
        (IntegrationView { skip_event_count: (s.skip_event_count - 1) as u8, ..s }, None)
    } else if !e.state {
        (s, None)
    } else {
        (
            if check_for_skip {
                IntegrationView { skip_event_count: 3, ..s }
            } else {
                s
            },
            vibration_plan(s, connected, e.strength, e.length),
        )
    }
}

/// The configuration entry that answers a niri event, and whether the
/// event is subject to the repeat cooldown.
pub open spec fn event_binding(cfg: SenseConfigEvents, e: NiriEvent) -> Option<(SenseEventConfig, bool)> {
    match e {
        NiriEvent::WorkspaceActivated => Some((cfg.workspace_focus_changed, false)),
        NiriEvent::WorkspacesChanged => Some((cfg.workspace_changed, false)),
        NiriEvent::WindowOpenedOrChanged => Some((cfg.window_opened_or_changed, true)),
        NiriEvent::WindowClosed => Some((cfg.window_closed, false)),
        NiriEvent::WindowFocusChanged { id } => if id is Some {
            Some((cfg.window_focus_changed, false))
        } else {
            None
        },
        NiriEvent::WindowLayoutsChanged => Some((cfg.window_layout_changed, true)),
        NiriEvent::WindowUrgencyChanged => Some((cfg.window_urgency_changed, false)),
        NiriEvent::KeyboardLayoutsChanged => Some((cfg.keyboard_layout_changed, false)),
        NiriEvent::OverviewOpenedOrClosed { is_open } => if is_open {
            Some((cfg.overview_opened, false))
        } else {
            Some((cfg.overview_closed, false))
        },
        NiriEvent::ScreenshotCaptured => Some((cfg.screenshot_captured, false)),
        NiriEvent::CastStartedOrChanged => Some((cfg.cast_started_or_changed, true)),
        NiriEvent::CastStopped => Some((cfg.cast_stopped, false)),
        NiriEvent::ConfigLoaded => Some((cfg.niri_config_reloaded, false)),
        NiriEvent::Other => None,
    }
}

/// Answering one niri event.
pub open spec fn event_step(s: IntegrationView, e: NiriEvent, connected: bool) -> (
    IntegrationView,
    Option<VibrationPlan>,
) {
    match event_binding(s.config.events, e) {
        Some((cfg, check_for_skip)) => mapped_event_step(s, cfg, check_for_skip, connected),
        None => (s, None),
    }
}

/// Whether position `p` of the device list holds the first device whose
/// index is `selected`.
pub open spec fn first_device_with_index(selected: i8, indices: Seq<u32>, p: int) -> bool {
    &&& 0 <= p < indices.len()
    &&& indices[p] as int == selected as int
    &&& forall|q: int| 0 <= q < p ==> #[trigger] indices[q] as int != selected as int
}

/// Whether some device of the list has the index `selected`.
pub open spec fn has_device_index(selected: i8, indices: Seq<u32>) -> bool {
    exists|p: int| 0 <= p < indices.len() && #[trigger] indices[p] as int == selected as int
}

/// The devices that the selection picks, given the indices of the known
/// devices in list order: the device whose index is the selection; every
/// device for -1 and for a selection that no device has.
pub open spec fn device_targets_for(selected: i8, indices: Seq<u32>, r: DeviceTargets) -> bool {
    match r {
        DeviceTargets::One(p) => first_device_with_index(selected, indices, p as int),
        DeviceTargets::All => !has_device_index(selected, indices),
    }
}

/// The test run: the three strengths with each length in turn, short ones
/// first, with a 500 ms pause between lengths.
pub open spec fn test_sequence() -> Seq<TestStep> {
    seq![
        TestStep::Vibrate(SenseVibrationStrength::Low, SenseVibrationLength::Short),
        TestStep::Vibrate(SenseVibrationStrength::Medium, SenseVibrationLength::Short),
        TestStep::Vibrate(SenseVibrationStrength::High, SenseVibrationLength::Short),
        TestStep::Pause(500),
        TestStep::Vibrate(SenseVibrationStrength::Low, SenseVibrationLength::Medium),
        TestStep::Vibrate(SenseVibrationStrength::Medium, SenseVibrationLength::Medium),
        TestStep::Vibrate(SenseVibrationStrength::High, SenseVibrationLength::Medium),
        TestStep::Pause(500),
        TestStep::Vibrate(SenseVibrationStrength::Low, SenseVibrationLength::Long),
        TestStep::Vibrate(SenseVibrationStrength::Medium, SenseVibrationLength::Long),
        TestStep::Vibrate(SenseVibrationStrength::High, SenseVibrationLength::Long),
    ]
}

// ---------------------------------------------------------------- implementation

/// The configuration entry that answers `e`, and whether the cooldown applies.
pub fn binding_for(cfg: &SenseConfigEvents, e: NiriEvent) -> (r: Option<(SenseEventConfig, bool)>)
    ensures
        r == event_binding(*cfg, e),
        e == NiriEvent::WorkspaceActivated ==> r == Some((cfg.workspace_focus_changed, false)),
        e == NiriEvent::WorkspacesChanged ==> r == Some((cfg.workspace_changed, false)),
        e == NiriEvent::WindowOpenedOrChanged ==> r == Some((cfg.window_opened_or_changed, true)),
        e == NiriEvent::WindowClosed ==> r == Some((cfg.window_closed, false)),
        e matches NiriEvent::WindowFocusChanged { id } ==> r == (if id is Some {
            Some((cfg.window_focus_changed, false))
        } else {
            None
        }),
        e == NiriEvent::WindowLayoutsChanged ==> r == Some((cfg.window_layout_changed, true)),
        e == NiriEvent::WindowUrgencyChanged ==> r == Some((cfg.window_urgency_changed, false)),
        e == NiriEvent::KeyboardLayoutsChanged ==> r == Some((cfg.keyboard_layout_changed, false)),
        e == (NiriEvent::OverviewOpenedOrClosed { is_open: true }) ==> r == Some(
            (cfg.overview_opened, false),
        ),
        e == (NiriEvent::OverviewOpenedOrClosed { is_open: false }) ==> r == Some(
            (cfg.overview_closed, false),
        ),
        e == NiriEvent::ScreenshotCaptured ==> r == Some((cfg.screenshot_captured, false)),
        e == NiriEvent::CastStartedOrChanged ==> r == Some((cfg.cast_started_or_changed, true)),
        e == NiriEvent::CastStopped ==> r == Some((cfg.cast_stopped, false)),
        e == NiriEvent::ConfigLoaded ==> r == Some((cfg.niri_config_reloaded, false)),
        e == NiriEvent::Other ==> r is None,
{
    match e {
        NiriEvent::WorkspaceActivated => Some((cfg.workspace_focus_changed, false)),
        NiriEvent::WorkspacesChanged => Some((cfg.workspace_changed, false)),
        NiriEvent::WindowOpenedOrChanged => Some((cfg.window_opened_or_changed, true)),
        NiriEvent::WindowClosed => Some((cfg.window_closed, false)),
        NiriEvent::WindowFocusChanged { id } => {
            if id.is_none() {
                return None;
            }
            Some((cfg.window_focus_changed, false))
        },
        NiriEvent::WindowLayoutsChanged => Some((cfg.window_layout_changed, true)),
        NiriEvent::WindowUrgencyChanged => Some((cfg.window_urgency_changed, false)),
        NiriEvent::KeyboardLayoutsChanged => Some((cfg.keyboard_layout_changed, false)),
        NiriEvent::OverviewOpenedOrClosed { is_open } => {
            if is_open {
                Some((cfg.overview_opened, false))
            } else {
                Some((cfg.overview_closed, false))
            }
        },
        NiriEvent::ScreenshotCaptured => Some((cfg.screenshot_captured, false)),
        NiriEvent::CastStartedOrChanged => Some((cfg.cast_started_or_changed, true)),
        NiriEvent::CastStopped => Some((cfg.cast_stopped, false)),
        NiriEvent::ConfigLoaded => Some((cfg.niri_config_reloaded, false)),
        NiriEvent::Other => None,
    }
}

impl Integration {
    /// A fresh state: not paused, every device selected, no cooldown running.
    pub fn new(config: SenseConfig) -> (r: Integration)
        ensures
            r@ == (IntegrationView {
                config,
                paused: false,
                device_selected: -1i8,
                skip_event_count: 0,
                quit_flag: false,
            }),
    {
        Integration {
            config,
            paused: false,
            device_selected: -1,
            skip_event_count: 0,
            quit_flag: false,
        }
    }

    pub fn config(&self) -> (r: &SenseConfig)
        ensures
            *r == self@.config,
    {
        &self.config
    }

    pub fn is_paused(&self) -> (r: bool)
        ensures
            r == self@.paused,
    {
        self.paused
    }

    pub fn selected_device(&self) -> (r: i8)
        ensures
            r == self@.device_selected,
    {
        self.device_selected
    }

    pub fn skip_event_count(&self) -> (r: u8)
        ensures
            r == self@.skip_event_count,
    {
        self.skip_event_count
    }

    pub fn quit_requested(&self) -> (r: bool)
        ensures
            r == self@.quit_flag,
    {
        self.quit_flag
    }

    /// The duration of a length preset, in milliseconds.
    pub fn _enum_length(&self, length: SenseVibrationLength) -> (r: u64)
        ensures
            r == length_ms(self@.config, length),
            length == SenseVibrationLength::Short ==> r == self@.config.lengths.short,
            length == SenseVibrationLength::Medium ==> r == self@.config.lengths.medium,
            length == SenseVibrationLength::Long ==> r == self@.config.lengths.long,
            length == SenseVibrationLength::CustomA ==> r == self@.config.lengths.custom_a,
            length == SenseVibrationLength::CustomB ==> r == self@.config.lengths.custom_b,
    {
        match length {
            SenseVibrationLength::Short => self.config.lengths.short,
            SenseVibrationLength::Medium => self.config.lengths.medium,
            SenseVibrationLength::Long => self.config.lengths.long,
            SenseVibrationLength::CustomA => self.config.lengths.custom_a,
            SenseVibrationLength::CustomB => self.config.lengths.custom_b,
        }
    }

    /// The percentage of a strength preset; the device gets it divided by 100.
    pub fn _enum_strength(&self, strength: SenseVibrationStrength) -> (r: u8)
        ensures
            r == strength_percent(self@.config, strength),
            strength == SenseVibrationStrength::Low ==> r == self@.config.strengths.low,
            strength == SenseVibrationStrength::Medium ==> r == self@.config.strengths.medium,
            strength == SenseVibrationStrength::High ==> r == self@.config.strengths.high,
            strength == SenseVibrationStrength::CustomA ==> r == self@.config.strengths.custom_a,
            strength == SenseVibrationStrength::CustomB ==> r == self@.config.strengths.custom_b,
    {
        match strength {
            SenseVibrationStrength::Low => self.config.strengths.low,
            SenseVibrationStrength::Medium => self.config.strengths.medium,
            SenseVibrationStrength::High => self.config.strengths.high,
            SenseVibrationStrength::CustomA => self.config.strengths.custom_a,
            SenseVibrationStrength::CustomB => self.config.strengths.custom_b,
        }
    }

    /// The vibration to run for a pair of presets, given whether the client
    /// is connected: none while disconnected or paused.
    pub fn vibrate_action(
        &self,
        connected: bool,
        sense_vibration_strength: SenseVibrationStrength,
        sense_vibration_length: SenseVibrationLength,
    ) -> (r: Option<VibrationPlan>)
        ensures
            r == vibration_plan(self@, connected, sense_vibration_strength, sense_vibration_length),
    {
        if !connected {
            return None;
        }
        if self.paused {
            return None;
        }
        let strength = self._enum_strength(sense_vibration_strength);
        let length = self._enum_length(sense_vibration_length);
        Some(VibrationPlan { strength_percent: strength, length_ms: length })
    }

    /// The devices that a vibration goes to, given the indices of the known
    /// devices in list order.
    pub fn _set_multiple(&self, device_indices: &Vec<u32>) -> (r: DeviceTargets)
        ensures
            device_targets_for(self@.device_selected, device_indices@, r),
    {
        if self.device_selected < 0 {
            return DeviceTargets::All;
        }
        let k: u32 = self.device_selected as u32;
        let n = device_indices.len();
        let mut i: usize = 0;
        while i < n
            invariant
                n == device_indices@.len(),
                i <= n,
                self.device_selected >= 0,
                k as int == self.device_selected as int,
                forall|q: int| 0 <= q < i ==> #[trigger] device_indices@[q] as int != k as int,
            decreases n - i,
        {
            if device_indices[i] == k {
                return DeviceTargets::One(i);
            }
            i = i + 1;
        }
        DeviceTargets::All
    }

    /// Answers one configured event.
    pub fn _run_mapped_event(
        &mut self,
        e: SenseEventConfig,
        check_for_skip: bool,
        connected: bool,
    ) -> (r: Option<VibrationPlan>)
        ensures
            (final(self)@, r) == mapped_event_step(old(self)@, e, check_for_skip, connected),
    {
        if check_for_skip && self.config.events.repeated_event_prevention {
            if self.skip_event_count > 0 {
                self.skip_event_count = self.skip_event_count - 1;
                return None;
            }
        }
        if !e.state {
            return None;
        }
        let plan = self.vibrate_action(connected, e.strength, e.length);
        if check_for_skip {
            self.skip_event_count = 3;
        }
        plan
    }

    /// Answers one niri event.
    pub fn event_to_integration(&mut self, e: NiriEvent, connected: bool) -> (r: Option<
        VibrationPlan,
    >)
        ensures
            (final(self)@, r) == event_step(old(self)@, e, connected),
    {
        match binding_for(&self.config.events, e) {
            Some((cfg, check_for_skip)) => self._run_mapped_event(cfg, check_for_skip, connected),
            None => None,
        }
    }

    /// The steps of the `test` command: none while disconnected or paused.
    pub fn send_test(&self, connected: bool) -> (r: Vec<TestStep>)
        ensures
            r@ == (if connected && !self@.paused { test_sequence() } else { seq![] }),
    {
        let mut steps: Vec<TestStep> = Vec::new();
        if !connected || self.paused {
            return steps;
        }
        steps.push(TestStep::Vibrate(SenseVibrationStrength::Low, SenseVibrationLength::Short));
        steps.push(TestStep::Vibrate(SenseVibrationStrength::Medium, SenseVibrationLength::Short));
        steps.push(TestStep::Vibrate(SenseVibrationStrength::High, SenseVibrationLength::Short));
        steps.push(TestStep::Pause(500));
        steps.push(TestStep::Vibrate(SenseVibrationStrength::Low, SenseVibrationLength::Medium));
        steps.push(TestStep::Vibrate(SenseVibrationStrength::Medium, SenseVibrationLength::Medium));
        steps.push(TestStep::Vibrate(SenseVibrationStrength::High, SenseVibrationLength::Medium));
        steps.push(TestStep::Pause(500));
        steps.push(TestStep::Vibrate(SenseVibrationStrength::Low, SenseVibrationLength::Long));
        steps.push(TestStep::Vibrate(SenseVibrationStrength::Medium, SenseVibrationLength::Long));
        steps.push(TestStep::Vibrate(SenseVibrationStrength::High, SenseVibrationLength::Long));
        assert(steps@ =~= test_sequence());
        steps
    }

    pub fn select_device(&mut self, new_id: i8)
        ensures
            final(self)@ == (IntegrationView { device_selected: new_id, ..old(self)@ }),
    {
        self.device_selected = new_id;
    }

    /// Flips the pause switch and returns its new value.
    pub fn toggle_pause(&mut self) -> (r: bool)
        ensures
            r == !old(self)@.paused,
            final(self)@ == pause_toggled(old(self)@),
    {
        self.paused = !self.paused;
        self.paused
    }

    /// Puts a newly loaded configuration in force; the rest of the state stays.
    pub fn reload_config(&mut self, config: SenseConfig)
        ensures
            final(self)@ == (IntegrationView { config, ..old(self)@ }),
    {
        self.config = config;
    }

    /// Asks the event loop to stop at the next event.
    pub fn exit(&mut self)
        ensures
            final(self)@ == (IntegrationView { quit_flag: true, ..old(self)@ }),
    {
        self.quit_flag = true;
    }

    /// The address that `connect` dials: `ws://<address>:<port>`.
    pub fn connect_address(&self) -> (r: String)
        ensures
            r@ == "ws://"@ + self@.config.server.address@ + ":"@ + decimal_digits(
                self@.config.server.port as nat,
            ),
    {
        let mut addr = String::from_str("ws://");
        addr.append(self.config.server.address.as_str());
        addr.append(":");
        append_decimal(&mut addr, self.config.server.port);
        addr
    }
}

// ---------------------------------------------------------------- laws

/// Whether the repeat cooldown applies to a niri event.
pub open spec fn is_cooldown_event(cfg: SenseConfigEvents, e: NiriEvent) -> bool {
    event_binding(cfg, e) matches Some((_, check)) && check
}

/// With the cooldown switched on, an event subject to the cooldown that runs
/// its vibration makes the next three such events do nothing; the fourth one
/// is answered as usual.
pub proof fn law_cooldown_swallows_next_three(
    s: IntegrationView,
    first: NiriEvent,
    later: Seq<NiriEvent>,
    connected: bool,
)
    requires
        s.config.events.repeated_event_prevention,
        is_cooldown_event(s.config.events, first),
        event_binding(s.config.events, first) matches Some((cfg, _)) && cfg.state,
        s.skip_event_count == 0,
        later.len() == 4,
        forall|i: int| 0 <= i < 4 ==> is_cooldown_event(s.config.events, #[trigger] later[i]),
    ensures
        ({
            let s1 = event_step(s, first, connected).0;
            let s2 = event_step(s1, later[0], connected);
            let s3 = event_step(s2.0, later[1], connected);
            let s4 = event_step(s3.0, later[2], connected);
            let s5 = event_step(s4.0, later[3], connected);
            let last = event_binding(s.config.events, later[3])->0;
            &&& s2.1 is None
            &&& s3.1 is None
            &&& s4.1 is None
            &&& s4.0.skip_event_count == 0
            &&& s5 == mapped_event_step(s4.0, last.0, true, connected)
            &&& (last.0.state ==> s5.1 == vibration_plan(s, connected, last.0.strength, last.0.length))
        }),
{
    assert(is_cooldown_event(s.config.events, first));
    assert(is_cooldown_event(s.config.events, later[0]));
    assert(is_cooldown_event(s.config.events, later[1]));
    assert(is_cooldown_event(s.config.events, later[2]));
    assert(is_cooldown_event(s.config.events, later[3]));
}

/// With the cooldown switched off, no event is ever swallowed: an event that
/// is on always runs its vibration (where one can run).
pub proof fn law_no_cooldown_when_switched_off(s: IntegrationView, e: NiriEvent, connected: bool)
    requires
        !s.config.events.repeated_event_prevention,
    ensures
        event_step(s, e, connected).1 == (match event_binding(s.config.events, e) {
            Some((cfg, _)) => if cfg.state {
                vibration_plan(s, connected, cfg.strength, cfg.length)
            } else {
                None
            },
            None => None,
        }),
{
}

/// While paused, or while not connected to a server, no event runs a
/// vibration.
pub proof fn law_paused_or_disconnected_is_silent(s: IntegrationView, e: NiriEvent, connected: bool)
    requires
        s.paused || !connected,
    ensures
        event_step(s, e, connected).1 is None,
{
}

/// An event that is switched off never vibrates, and never restarts the
/// cooldown: at most it uses up one step of it.
pub proof fn law_off_event_is_silent(s: IntegrationView, e: NiriEvent, connected: bool)
    requires
        event_binding(s.config.events, e) matches Some((cfg, _)) && !cfg.state,
    ensures
        event_step(s, e, connected).1 is None,
        event_step(s, e, connected).0.skip_event_count <= s.skip_event_count,
{
}

/// A focus change to no window is not answered at all.
pub proof fn law_unfocus_is_ignored(s: IntegrationView, connected: bool)
    ensures
        event_step(s, NiriEvent::WindowFocusChanged { id: None }, connected) == (s, None::<
            VibrationPlan,
        >),
{
}

/// Events outside the cooldown never touch it: they neither start it nor
/// use it up.
pub proof fn law_other_events_leave_cooldown(s: IntegrationView, e: NiriEvent, connected: bool)
    requires
        !is_cooldown_event(s.config.events, e),
    ensures
        event_step(s, e, connected).0 == s,
{
}

/// Answering an event changes nothing but the cooldown counter, and that
/// one only by keeping it, setting it to 3, or lowering it by exactly 1 (the
/// last two only for events subject to the cooldown).
pub proof fn law_event_changes_only_cooldown(s: IntegrationView, e: NiriEvent, connected: bool)
    ensures
        ({
            let n = event_step(s, e, connected).0;
            &&& n == (IntegrationView { skip_event_count: n.skip_event_count, ..s })
            &&& n.skip_event_count == s.skip_event_count || (is_cooldown_event(s.config.events, e) && (
            n.skip_event_count == 3 || n.skip_event_count + 1 == s.skip_event_count))
        }),
{
}

/// The state after answering `events` in turn, each with whether the client
/// was connected at that moment.
pub open spec fn run_events(s: IntegrationView, events: Seq<(NiriEvent, bool)>) -> IntegrationView
    decreases events.len(),
{
    if events.len() == 0 {
        s
    } else {
        run_events(event_step(s, events[0].0, events[0].1).0, events.drop_first())
    }
}

/// The cooldown counter stays at most 3 along any run of events from a
/// state where it is at most 3, as that of a new state (0) is.
pub proof fn law_cooldown_stays_bounded(s: IntegrationView, events: Seq<(NiriEvent, bool)>)
    requires
        s.skip_event_count <= 3,
    ensures
        run_events(s, events).skip_event_count <= 3,
    decreases events.len(),
{
    if events.len() > 0 {
        law_cooldown_stays_bounded(event_step(s, events[0].0, events[0].1).0, events.drop_first());
    }
}

/// Selecting -1, or an index that no device has, sends vibrations to every
/// device; a device picked is always one with the selected index.
pub proof fn law_selection_targets(selected: i8, indices: Seq<u32>, r: DeviceTargets)
    requires
        device_targets_for(selected, indices, r),
    ensures
        (selected == -1 || !has_device_index(selected, indices)) ==> r == DeviceTargets::All,
        r matches DeviceTargets::One(p) ==> p < indices.len() && indices[p as int] as int == selected as int,
{
    if let DeviceTargets::One(p) = r {
        assert(indices[p as int] as int == selected as int);
    }
}

/// Pausing twice gives back the state before.
pub proof fn law_pause_twice_restores(s: IntegrationView)
    ensures
        pause_toggled(pause_toggled(s)) == s,
{
}

pub open spec fn pause_toggled(s: IntegrationView) -> IntegrationView {
    IntegrationView { paused: !s.paused, ..s }
}

/// The presets pick their own fields of the configuration, and a vibration
/// is run, with the configured percentage and duration, exactly while
/// connected and not paused.
pub proof fn law_presets_pick_their_fields(
    s: IntegrationView,
    connected: bool,
    strength: SenseVibrationStrength,
    length: SenseVibrationLength,
)
    ensures
        length_ms(s.config, SenseVibrationLength::Short) == s.config.lengths.short,
        length_ms(s.config, SenseVibrationLength::Medium) == s.config.lengths.medium,
        length_ms(s.config, SenseVibrationLength::Long) == s.config.lengths.long,
        length_ms(s.config, SenseVibrationLength::CustomA) == s.config.lengths.custom_a,
        length_ms(s.config, SenseVibrationLength::CustomB) == s.config.lengths.custom_b,
        strength_percent(s.config, SenseVibrationStrength::Low) == s.config.strengths.low,
        strength_percent(s.config, SenseVibrationStrength::Medium) == s.config.strengths.medium,
        strength_percent(s.config, SenseVibrationStrength::High) == s.config.strengths.high,
        strength_percent(s.config, SenseVibrationStrength::CustomA) == s.config.strengths.custom_a,
        strength_percent(s.config, SenseVibrationStrength::CustomB) == s.config.strengths.custom_b,
        vibration_plan(s, connected, strength, length) == (if connected && !s.paused {
            Some(
                VibrationPlan {
                    strength_percent: strength_percent(s.config, strength),
                    length_ms: length_ms(s.config, length),
                },
            )
        } else {
            None
        }),
{
}

/// How an event is answered with a given entry of the `[events]` table:
/// swallowed (one step of the cooldown used up) while the cooldown runs and
/// the event is subject to it; otherwise nothing when the entry is off; else
/// the entry's vibration, the cooldown being set to 3 by events subject to it.
pub open spec fn answered_with(
    s: IntegrationView,
    e: NiriEvent,
    connected: bool,
    entry: SenseEventConfig,
    cooldown: bool,
) -> bool {
    let n = event_step(s, e, connected).0;
    let plan = event_step(s, e, connected).1;
    if cooldown && s.config.events.repeated_event_prevention && s.skip_event_count > 0 {
        n == (IntegrationView { skip_event_count: (s.skip_event_count - 1) as u8, ..s })
            && plan is None
    } else if !entry.state {
        n == s && plan is None
    } else {
        &&& plan == vibration_plan(s, connected, entry.strength, entry.length)
        &&& n == (if cooldown {
            IntegrationView { skip_event_count: 3, ..s }
        } else {
            s
        })
    }
}

/// Each kind of niri event is answered with the `[events]` entry named after
/// it; only window opened or changed, window layout and cast started or
/// changed events are subject to the cooldown; a focus change to no window
/// and any other event are not answered.
pub proof fn law_each_event_answered_by_its_entry(s: IntegrationView, connected: bool)
    ensures
        answered_with(s, NiriEvent::WorkspaceActivated, connected, s.config.events.workspace_focus_changed, false),
        answered_with(s, NiriEvent::WorkspacesChanged, connected, s.config.events.workspace_changed, false),
        answered_with(s, NiriEvent::WindowOpenedOrChanged, connected, s.config.events.window_opened_or_changed, true),
        answered_with(s, NiriEvent::WindowClosed, connected, s.config.events.window_closed, false),
        forall|id: u64|
            #[trigger] answered_with(
                s,
                NiriEvent::WindowFocusChanged { id: Some(id) },
                connected,
                s.config.events.window_focus_changed,
                false,
            ),
        answered_with(s, NiriEvent::WindowLayoutsChanged, connected, s.config.events.window_layout_changed, true),
        answered_with(s, NiriEvent::WindowUrgencyChanged, connected, s.config.events.window_urgency_changed, false),
        answered_with(s, NiriEvent::KeyboardLayoutsChanged, connected, s.config.events.keyboard_layout_changed, false),
        answered_with(s, NiriEvent::OverviewOpenedOrClosed { is_open: true }, connected, s.config.events.overview_opened, false),
        answered_with(s, NiriEvent::OverviewOpenedOrClosed { is_open: false }, connected, s.config.events.overview_closed, false),
        answered_with(s, NiriEvent::ScreenshotCaptured, connected, s.config.events.screenshot_captured, false),
        answered_with(s, NiriEvent::CastStartedOrChanged, connected, s.config.events.cast_started_or_changed, true),
        answered_with(s, NiriEvent::CastStopped, connected, s.config.events.cast_stopped, false),
        answered_with(s, NiriEvent::ConfigLoaded, connected, s.config.events.niri_config_reloaded, false),
        event_step(s, NiriEvent::WindowFocusChanged { id: None }, connected) == (s, None::<VibrationPlan>),
        event_step(s, NiriEvent::Other, connected) == (s, None::<VibrationPlan>),
{
}

} // verus!
