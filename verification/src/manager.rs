//! The connection manager: the state machine that drives the session from
//! disconnected to a live, path-resolved, event-monitored connection, with a
//! bounded retry ceiling, and keeps re-attempting across disconnects.
//!
//! The manager decides; the surrounding program acts. Each step takes the
//! outcome of the previous external action (a captured transcript, an
//! event's device path, a failure) and returns the next [`ManagerAction`].
//! Every step is mirrored by a spec-level transition on [`ManagerModel`], so
//! the protocol's laws are stated and proved on the model.

use vstd::prelude::*;

use crate::activity::matches_resolved;
use crate::text::spec_lines;
use crate::text::str_eq;
use crate::wii_remote::WiiRemote;
use crate::wii_remote::lemma_single_match_identity;
use crate::wii_remote::line_identity;
use crate::wii_remote::line_matches;
use crate::wii_remote::listing_path;
use crate::wii_remote::scan_identity;

verus! {

/// Connect-retry ceiling: after this many failed attempts in a row the
/// manager stops for good (the one designed-fatal condition: operator
/// intervention is required, for instance when no Bluetooth adapter is
/// present at all).
pub const MAX_RETRIES: u32 = 10;

/// Where the manager stands in the connect/monitor protocol.
#[derive(Debug, PartialEq)]
pub enum ManagerPhase {
    /// Between attempts.
    Idle,
    /// Asked for the paired-device listing.
    AwaitingDevices,
    /// Asked for a bounded discovery scan.
    AwaitingScan,
    /// Issued a connect command for the recorded address.
    AwaitingConnect,
    /// Asked for the device listing that resolves the device path.
    AwaitingPath,
    /// Monitoring input events, filtered by this epoch's resolved path.
    Monitoring(String),
    /// Retry ceiling reached; the manager attempts nothing further.
    Stopped,
}

/// What the surrounding program must do next.
#[derive(Debug, PartialEq)]
pub enum ManagerAction {
    /// Nothing: the event does not apply to the current phase.
    Skip,
    /// Capture the paired-device listing and hand its text back.
    QueryDevices,
    /// Run a time-bounded discovery scan and hand its transcript back.
    StartScan,
    /// Issue a connect command for this address, then report completion
    /// (with either outcome).
    Connect(String),
    /// Capture the device listing and hand its text back.
    ListDevices,
    /// Pump input events, handing each event's device path back.
    DispatchEvents,
    /// Store the current time into the activity clock.
    RecordActivity,
    /// Wait briefly (tens of milliseconds), then retry session access.
    BackoffShort,
    /// Wait about a second before the next attempt.
    BackoffLong,
    /// Start the next attempt at once.
    Retry,
    /// Log the fatal retry-ceiling condition; the manager has stopped.
    ReportFatal,
}

/// Spec-level mirror of [`ManagerPhase`].
pub enum PhaseModel {
    Idle,
    AwaitingDevices,
    AwaitingScan,
    AwaitingConnect,
    AwaitingPath,
    Monitoring(Seq<char>),
    Stopped,
}

/// Spec-level mirror of [`ManagerAction`].
pub enum ActionModel {
    Skip,
    QueryDevices,
    StartScan,
    Connect(Seq<char>),
    ListDevices,
    DispatchEvents,
    RecordActivity,
    BackoffShort,
    BackoffLong,
    Retry,
    ReportFatal,
}

/// Spec-level mirror of [`ConnectionManager`].
pub struct ManagerModel {
    pub phase: PhaseModel,
    pub retries: int,
}

impl View for ManagerPhase {
    type V = PhaseModel;

    open spec fn view(&self) -> PhaseModel {
        match self {
            ManagerPhase::Idle => PhaseModel::Idle,
            ManagerPhase::AwaitingDevices => PhaseModel::AwaitingDevices,
            ManagerPhase::AwaitingScan => PhaseModel::AwaitingScan,
            ManagerPhase::AwaitingConnect => PhaseModel::AwaitingConnect,
            ManagerPhase::AwaitingPath => PhaseModel::AwaitingPath,
            ManagerPhase::Monitoring(p) => PhaseModel::Monitoring(p@),
            ManagerPhase::Stopped => PhaseModel::Stopped,
        }
    }
}

impl View for ManagerAction {
    type V = ActionModel;

    open spec fn view(&self) -> ActionModel {
        match self {
            ManagerAction::Skip => ActionModel::Skip,
            ManagerAction::QueryDevices => ActionModel::QueryDevices,
            ManagerAction::StartScan => ActionModel::StartScan,
            ManagerAction::Connect(id) => ActionModel::Connect(id@),
            ManagerAction::ListDevices => ActionModel::ListDevices,
            ManagerAction::DispatchEvents => ActionModel::DispatchEvents,
            ManagerAction::RecordActivity => ActionModel::RecordActivity,
            ManagerAction::BackoffShort => ActionModel::BackoffShort,
            ManagerAction::BackoffLong => ActionModel::BackoffLong,
            ManagerAction::Retry => ActionModel::Retry,
            ManagerAction::ReportFatal => ActionModel::ReportFatal,
        }
    }
}

/// The manager's state at process start: nothing attempted, no failures.
pub open spec fn initial_model() -> ManagerModel {
    ManagerModel { phase: PhaseModel::Idle, retries: 0 }
}

/// Start of one attempt: a stopped manager does nothing; at the retry
/// ceiling the fatal condition is reported and the manager stops; otherwise
/// the paired-device listing is requested. Any previously resolved device
/// path is discarded here — each attempt begins a fresh epoch.
pub open spec fn spec_begin(m: ManagerModel) -> (ManagerModel, ActionModel) {
    if m.phase is Stopped {
        (m, ActionModel::Skip)
    } else if m.retries >= MAX_RETRIES as int {
        (ManagerModel { phase: PhaseModel::Stopped, retries: m.retries }, ActionModel::ReportFatal)
    } else {
        (
            ManagerModel { phase: PhaseModel::AwaitingDevices, retries: m.retries },
            ActionModel::QueryDevices,
        )
    }
}

/// Session access was busy: nothing changes; back off briefly and retry —
/// never block.
pub open spec fn spec_lock_busy(m: ManagerModel) -> (ManagerModel, ActionModel) {
    if m.phase is Stopped {
        (m, ActionModel::Skip)
    } else {
        (m, ActionModel::BackoffShort)
    }
}

/// Outcome of the paired-device check, where `connected` says whether the
/// listing already names the peripheral: if so the attempt succeeded without
/// a scan and path resolution follows; otherwise a discovery scan is next.
pub open spec fn spec_devices(m: ManagerModel, connected: bool) -> (ManagerModel, ActionModel) {
    if !(m.phase is AwaitingDevices) {
        (m, ActionModel::Skip)
    } else if connected {
        (ManagerModel { phase: PhaseModel::AwaitingPath, retries: 0 }, ActionModel::ListDevices)
    } else {
        (ManagerModel { phase: PhaseModel::AwaitingScan, retries: m.retries }, ActionModel::StartScan)
    }
}

/// Outcome of a discovery scan, where `candidate` is the identity of the
/// first matching transcript line: a found candidate resets the failure
/// count and asks for a connect command; an empty discovery counts one
/// failed attempt and backs off.
pub open spec fn spec_scan(m: ManagerModel, candidate: Option<Seq<char>>) -> (
    ManagerModel,
    ActionModel,
) {
    if !(m.phase is AwaitingScan) {
        (m, ActionModel::Skip)
    } else {
        match candidate {
            Some(id) => (
                ManagerModel { phase: PhaseModel::AwaitingConnect, retries: 0 },
                ActionModel::Connect(id),
            ),
            None => (
                ManagerModel {
                    phase: PhaseModel::Idle,
                    retries: if m.retries < MAX_RETRIES as int {
                        m.retries + 1
                    } else {
                        m.retries
                    },
                },
                ActionModel::BackoffLong,
            ),
        }
    }
}

/// The connect command completed. Its outcome is not inspected: a failed
/// connect after a found candidate is retried by the loop, not treated as a
/// failure here. Path resolution follows.
pub open spec fn spec_connect_finished(m: ManagerModel) -> (ManagerModel, ActionModel) {
    if !(m.phase is AwaitingConnect) {
        (m, ActionModel::Skip)
    } else {
        (ManagerModel { phase: PhaseModel::AwaitingPath, retries: m.retries }, ActionModel::ListDevices)
    }
}

/// Outcome of device-path resolution: with a path the manager enters
/// monitoring for this epoch; without one (transiently expected right after
/// a connect) the attempt is retried.
pub open spec fn spec_listing(m: ManagerModel, path: Option<Seq<char>>) -> (
    ManagerModel,
    ActionModel,
) {
    if !(m.phase is AwaitingPath) {
        (m, ActionModel::Skip)
    } else {
        match path {
            Some(p) => (
                ManagerModel { phase: PhaseModel::Monitoring(p), retries: m.retries },
                ActionModel::DispatchEvents,
            ),
            None => (
                ManagerModel { phase: PhaseModel::Idle, retries: m.retries },
                ActionModel::Retry,
            ),
        }
    }
}

/// One monitored event: it counts as activity exactly when its device path
/// equals the path resolved in this epoch. The manager's state never changes
/// here.
pub open spec fn spec_event(m: ManagerModel, path: Option<Seq<char>>) -> ActionModel {
    if m.phase matches PhaseModel::Monitoring(p) && matches_resolved(p, path) {
        ActionModel::RecordActivity
    } else {
        ActionModel::Skip
    }
}

/// The event source failed fatally: the epoch ends, its path is discarded,
/// and the whole connect sequence is re-attempted.
pub open spec fn spec_dispatch_error(m: ManagerModel) -> (ManagerModel, ActionModel) {
    if m.phase is Monitoring {
        (ManagerModel { phase: PhaseModel::Idle, retries: m.retries }, ActionModel::Retry)
    } else {
        (m, ActionModel::Skip)
    }
}

/// Drives the connect retry loop and, once connected, the event-monitoring
/// dispatch. Shares the [`WiiRemote`] session with the idle watchdog; the
/// surrounding program serializes access and hands each step the text the
/// external tools produced.
pub struct ConnectionManager {
    pub phase: ManagerPhase,
    pub retries: u32,
}

impl View for ConnectionManager {
    type V = ManagerModel;

    open spec fn view(&self) -> ManagerModel {
        ManagerModel { phase: self.phase@, retries: self.retries as int }
    }
}

impl ConnectionManager {
    /// A manager that has not yet attempted anything.
    pub fn new() -> (r: ConnectionManager)
        ensures
            r@ == initial_model(),
    {
        ConnectionManager { phase: ManagerPhase::Idle, retries: 0 }
    }

    /// Starts one iteration of the connect loop, as [`spec_begin`] describes.
    pub fn begin_attempt(&mut self) -> (a: ManagerAction)
        ensures
            (final(self)@, a@) == spec_begin(old(self)@),
    {
        match &self.phase {
            ManagerPhase::Stopped => ManagerAction::Skip,
            _ => {
                if self.retries >= MAX_RETRIES {
                    self.phase = ManagerPhase::Stopped;
                    ManagerAction::ReportFatal
                } else {
                    self.phase = ManagerPhase::AwaitingDevices;
                    ManagerAction::QueryDevices
                }
            },
        }
    }

    /// Session access was busy, as [`spec_lock_busy`] describes: skip, never
    /// block, so the watchdog and the connect loop cannot starve each other.
    pub fn on_lock_busy(&self) -> (a: ManagerAction)
        ensures
            (self@, a@) == spec_lock_busy(self@),
    {
        match &self.phase {
            ManagerPhase::Stopped => ManagerAction::Skip,
            _ => ManagerAction::BackoffShort,
        }
    }

    /// Digests the captured paired-device listing, as [`spec_devices`]
    /// describes; the session records the identity exactly as
    /// [`WiiRemote::is_connected`] does.
    pub fn on_devices_output(&mut self, session: &mut WiiRemote, out: &str) -> (a: ManagerAction)
        ensures
            (final(self)@, a@) == spec_devices(old(self)@, scan_identity(out@) is Some),
            old(self)@.phase is AwaitingDevices ==> final(session)@ == match scan_identity(out@) {
                Some(id) => id,
                None => old(session)@,
            },
            !(old(self)@.phase is AwaitingDevices) ==> *final(session) == *old(session),
    {
        match &self.phase {
            ManagerPhase::AwaitingDevices => {
                if session.is_connected(out) {
                    self.retries = 0;
                    self.phase = ManagerPhase::AwaitingPath;
                    ManagerAction::ListDevices
                } else {
                    self.phase = ManagerPhase::AwaitingScan;
                    ManagerAction::StartScan
                }
            },
            _ => ManagerAction::Skip,
        }
    }

    /// Digests a captured discovery transcript, as [`spec_scan`] describes;
    /// the session records or clears the identity exactly as
    /// [`WiiRemote::try_connect`] does, and a found candidate's address is
    /// carried in the returned connect request.
    pub fn on_scan_output(&mut self, session: &mut WiiRemote, out: &str) -> (a: ManagerAction)
        ensures
            (final(self)@, a@) == spec_scan(old(self)@, scan_identity(out@)),
            old(self)@.phase is AwaitingScan ==> final(session)@ == match scan_identity(out@) {
                Some(id) => id,
                None => Seq::<char>::empty(),
            },
            !(old(self)@.phase is AwaitingScan) ==> *final(session) == *old(session),
    {
        match &self.phase {
            ManagerPhase::AwaitingScan => {
                if session.try_connect(out) {
                    self.retries = 0;
                    self.phase = ManagerPhase::AwaitingConnect;
                    ManagerAction::Connect(session.bluetooth_address.clone())
                } else {
                    if self.retries < MAX_RETRIES {
                        self.retries = self.retries + 1;
                    }
                    self.phase = ManagerPhase::Idle;
                    ManagerAction::BackoffLong
                }
            },
            _ => ManagerAction::Skip,
        }
    }

    /// The connect command completed, as [`spec_connect_finished`] describes.
    pub fn on_connect_finished(&mut self) -> (a: ManagerAction)
        ensures
            (final(self)@, a@) == spec_connect_finished(old(self)@),
    {
        match &self.phase {
            ManagerPhase::AwaitingConnect => {
                self.phase = ManagerPhase::AwaitingPath;
                ManagerAction::ListDevices
            },
            _ => ManagerAction::Skip,
        }
    }

    /// Digests the captured device-listing output, as [`spec_listing`]
    /// describes, resolving this epoch's device path via
    /// [`WiiRemote::get_udev_device_path`].
    pub fn on_listing_output(&mut self, session: &WiiRemote, out: &str) -> (a: ManagerAction)
        ensures
            (final(self)@, a@) == spec_listing(old(self)@, listing_path(out@)),
    {
        match &self.phase {
            ManagerPhase::AwaitingPath => {
                match session.get_udev_device_path(out) {
                    Some(p) => {
                        self.phase = ManagerPhase::Monitoring(p);
                        ManagerAction::DispatchEvents
                    },
                    None => {
                        self.phase = ManagerPhase::Idle;
                        ManagerAction::Retry
                    },
                }
            },
            _ => ManagerAction::Skip,
        }
    }

    /// One monitored event, as [`spec_event`] describes: record activity
    /// exactly when the event's device path equals this epoch's resolved
    /// path.
    pub fn on_event_path(&self, path: Option<&str>) -> (a: ManagerAction)
        ensures
            a@ == spec_event(self@, path.deep_view()),
    {
        match &self.phase {
            ManagerPhase::Monitoring(resolved) => {
                match path {
                    Some(p) => {
                        if str_eq(resolved.as_str(), p) {
                            ManagerAction::RecordActivity
                        } else {
                            ManagerAction::Skip
                        }
                    },
                    None => ManagerAction::Skip,
                }
            },
            _ => ManagerAction::Skip,
        }
    }

    /// The event source failed fatally, as [`spec_dispatch_error`] describes.
    pub fn on_dispatch_error(&mut self) -> (a: ManagerAction)
        ensures
            (final(self)@, a@) == spec_dispatch_error(old(self)@),
    {
        match &self.phase {
            ManagerPhase::Monitoring(_) => {
                self.phase = ManagerPhase::Idle;
                ManagerAction::Retry
            },
            _ => ManagerAction::Skip,
        }
    }
}

/// One failed attempt under empty discovery: the attempt begins, the
/// paired-device check finds nothing, and the discovery scan finds nothing.
pub open spec fn spec_failed_attempt(m: ManagerModel) -> ManagerModel {
    spec_scan(spec_devices(spec_begin(m).0, false).0, None).0
}

/// The manager's state after `k` failed attempts in a row from process
/// start.
pub open spec fn after_failed_attempts(k: nat) -> ManagerModel
    decreases k,
{
    if k == 0 {
        initial_model()
    } else {
        spec_failed_attempt(after_failed_attempts((k - 1) as nat))
    }
}

proof fn lemma_after_failed_attempts(k: nat)
    requires
        k <= MAX_RETRIES,
    ensures
        after_failed_attempts(k) == (ManagerModel { phase: PhaseModel::Idle, retries: k as int }),
    decreases k,
{
    if k > 0 {
        lemma_after_failed_attempts((k - 1) as nat);
    }
}

/// Retry ceiling: under a control interface that always reports empty
/// discovery, each of the first ten attempts still proceeds (it asks for the
/// paired-device listing), and the attempt after the tenth failure reports
/// the fatal condition and stops the manager for good.
pub proof fn lemma_retry_ceiling()
    ensures
        forall|k: nat|
            k < MAX_RETRIES ==> (#[trigger] spec_begin(after_failed_attempts(k)).1)
                is QueryDevices,
        spec_begin(after_failed_attempts(MAX_RETRIES as nat)).1 is ReportFatal,
        spec_begin(after_failed_attempts(MAX_RETRIES as nat)).0.phase is Stopped,
{
    assert forall|k: nat| k < MAX_RETRIES implies (#[trigger] spec_begin(
        after_failed_attempts(k),
    ).1) is QueryDevices by {
        lemma_after_failed_attempts(k);
    }
    lemma_after_failed_attempts(MAX_RETRIES as nat);
}

/// The fatal condition is reported at most once: only the start of an
/// attempt reports it, only on the transition into the stopped state, and a
/// stopped manager never changes state or requests anything again.
pub proof fn lemma_fatal_reported_once(
    m: ManagerModel,
    connected: bool,
    candidate: Option<Seq<char>>,
    path: Option<Seq<char>>,
    event: Option<Seq<char>>,
)
    ensures
        spec_begin(m).1 is ReportFatal ==> !(m.phase is Stopped) && spec_begin(m).0.phase
            is Stopped,
        m.phase is Stopped ==> spec_begin(m) == (m, ActionModel::Skip),
        m.phase is Stopped ==> spec_lock_busy(m) == (m, ActionModel::Skip),
        m.phase is Stopped ==> spec_devices(m, connected) == (m, ActionModel::Skip),
        m.phase is Stopped ==> spec_scan(m, candidate) == (m, ActionModel::Skip),
        m.phase is Stopped ==> spec_connect_finished(m) == (m, ActionModel::Skip),
        m.phase is Stopped ==> spec_listing(m, path) == (m, ActionModel::Skip),
        m.phase is Stopped ==> spec_event(m, event) == ActionModel::Skip,
        m.phase is Stopped ==> spec_dispatch_error(m) == (m, ActionModel::Skip),
        !(spec_lock_busy(m).1 is ReportFatal),
        !(spec_devices(m, connected).1 is ReportFatal),
        !(spec_scan(m, candidate).1 is ReportFatal),
        !(spec_connect_finished(m).1 is ReportFatal),
        !(spec_listing(m, path).1 is ReportFatal),
        !(spec_event(m, event) is ReportFatal),
        !(spec_dispatch_error(m).1 is ReportFatal),
{
}

/// Idempotence of the connect check: when the paired-device listing already
/// names the peripheral, the manager goes straight to path resolution — it
/// requests no discovery scan and no connect command — and the failure count
/// resets.
pub proof fn lemma_connect_check_idempotent(m: ManagerModel)
    requires
        m.phase is AwaitingDevices,
    ensures
        spec_devices(m, true).1 is ListDevices,
        !(spec_devices(m, true).1 is StartScan),
        !(spec_devices(m, true).1 is Connect),
        spec_devices(m, true).0.phase is AwaitingPath,
        spec_devices(m, true).0.retries == 0,
{
}

/// A discovery transcript with exactly one matching line, whose address
/// field is some identity `X`: the scan step records `X` and requests a
/// connect command for exactly `X`, whatever that command's outcome will be.
pub proof fn lemma_single_candidate_connect(m: ManagerModel, out: Seq<char>, i: int)
    requires
        m.phase is AwaitingScan,
        0 <= i < spec_lines(out).len(),
        line_matches(spec_lines(out)[i]),
        forall|j: int|
            0 <= j < spec_lines(out).len() && j != i ==> !line_matches(
                #[trigger] spec_lines(out)[j],
            ),
    ensures
        scan_identity(out) == Some(line_identity(spec_lines(out)[i])),
        spec_scan(m, scan_identity(out)).1 == ActionModel::Connect(
            line_identity(spec_lines(out)[i]),
        ),
        spec_scan(m, scan_identity(out)).0.phase is AwaitingConnect,
{
    lemma_single_match_identity(spec_lines(out), i);
}

/// A device path never leaks from one epoch into a later one: monitoring is
/// entered only through a fresh listing, whose path it carries; beginning a
/// new attempt or losing the event source discards the path; and no other
/// step invents one.
pub proof fn lemma_epoch_path_fresh(
    m: ManagerModel,
    connected: bool,
    candidate: Option<Seq<char>>,
    path: Option<Seq<char>>,
)
    ensures
        !(spec_begin(m).0.phase is Monitoring),
        !(spec_dispatch_error(m).0.phase is Monitoring),
        spec_devices(m, connected).0.phase matches PhaseModel::Monitoring(p) ==> m.phase
            == PhaseModel::Monitoring(p),
        spec_scan(m, candidate).0.phase matches PhaseModel::Monitoring(p) ==> m.phase
            == PhaseModel::Monitoring(p),
        spec_connect_finished(m).0.phase matches PhaseModel::Monitoring(p) ==> m.phase
            == PhaseModel::Monitoring(p),
        spec_listing(m, path).0.phase matches PhaseModel::Monitoring(p) ==> (m.phase
            is AwaitingPath && path == Some(p)) || m.phase == PhaseModel::Monitoring(p),
{
}

} // verus!
