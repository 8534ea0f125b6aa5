use vstd::prelude::*;
use crate::filter::ScanFilter;

verus! {

/// Where a watcher stands. `Stopped` and `Scanning` are the two settled
/// states; the others wait for the platform to answer the call the watcher
/// asked for.
#[derive(Clone, Copy, PartialEq, Eq, Debug, Structural)]
pub enum Stage {
    Stopped,
    Configuring,
    Subscribing,
    Starting,
    Scanning,
    Stopping,
}

/// Why a start or a stop did not go through.
#[derive(Clone, Copy, PartialEq, Eq, Debug, Structural)]
pub enum ScanError {
    /// The platform's watcher object could not be created.
    PlatformInit,
    /// The platform refused the scanning configuration.
    PlatformConfig,
    /// The platform refused the event handler.
    PlatformSubscribe,
    /// The platform refused to start scanning.
    PlatformStart,
    /// The platform refused to stop scanning; the session goes on.
    PlatformStop,
    /// `start` was called while a session is live.
    AlreadyScanning,
    /// A call made while a platform call is unanswered, or an answer to no call.
    OutOfTurn,
}

/// A call on the platform's watcher that the caller is to make, and then
/// report with [`BLEWatcher::platform_result`].
pub enum PlatformCall {
    /// Set active scanning and allow extended advertisements.
    Configure,
    /// Register the dispatch for received advertisements, under this filter.
    Subscribe(ScanFilter),
    /// Start scanning.
    Start,
    /// Stop scanning.
    Stop,
}

/// What the caller does next: make a platform call, or hand the outcome of the
/// whole operation to its own caller.
pub enum Action {
    Perform(PlatformCall),
    Finish(Result<(), ScanError>),
}

/// A platform call, with the filter of a subscription as a set.
pub enum CallView {
    Configure,
    Subscribe(Set<u128>),
    Start,
    Stop,
}

/// An action, with the filter of a subscription as a set.
pub enum ActionView {
    Perform(CallView),
    Finish(Result<(), ScanError>),
}

impl View for Action {
    type V = ActionView;

    open spec fn view(&self) -> ActionView {
        match self {
            Action::Perform(PlatformCall::Configure) => ActionView::Perform(CallView::Configure),
            Action::Perform(PlatformCall::Subscribe(f)) => ActionView::Perform(
                CallView::Subscribe(f@),
            ),
            Action::Perform(PlatformCall::Start) => ActionView::Perform(CallView::Start),
            Action::Perform(PlatformCall::Stop) => ActionView::Perform(CallView::Stop),
            Action::Finish(r) => ActionView::Finish(*r),
        }
    }
}

/// The start/stop discipline of one platform watcher: at most one filter is
/// registered at a time, and a second start during a live session is refused.
pub struct BLEWatcher {
    stage: Stage,
    filter: ScanFilter,
}

/// A watcher's stage and the filter of its session.
pub struct WatcherView {
    pub stage: Stage,
    /// The filter of the live session; empty while stopped.
    pub filter: Set<u128>,
}

impl View for BLEWatcher {
    type V = WatcherView;

    closed spec fn view(&self) -> WatcherView {
        WatcherView { stage: self.stage, filter: self.filter@ }
    }
}

/// The watcher with no session.
pub open spec fn stopped() -> WatcherView {
    WatcherView { stage: Stage::Stopped, filter: Set::empty() }
}

/// `start` under a filter: from `Stopped` the session begins with the
/// configuration call; otherwise it is refused and nothing changes.
pub open spec fn start_step(w: WatcherView, filter: Set<u128>) -> (WatcherView, ActionView) {
    if w.stage == Stage::Stopped {
        (
            WatcherView { stage: Stage::Configuring, filter },
            ActionView::Perform(CallView::Configure),
        )
    } else {
        (w, ActionView::Finish(Err(ScanError::AlreadyScanning)))
    }
}

/// `stop`: from `Scanning` the stop call is asked for; from `Stopped` it
/// succeeds at once; while a platform call is unanswered it is out of turn.
pub open spec fn stop_step(w: WatcherView) -> (WatcherView, ActionView) {
    if w.stage == Stage::Scanning {
        (WatcherView { stage: Stage::Stopping, ..w }, ActionView::Perform(CallView::Stop))
    } else if w.stage == Stage::Stopped {
        (w, ActionView::Finish(Ok(())))
    } else {
        (w, ActionView::Finish(Err(ScanError::OutOfTurn)))
    }
}

/// The answer of the platform to the pending call. The start sequence goes
/// configure, subscribe, start, and ends at the first refusal with its error;
/// a refused stop leaves the session scanning.
pub open spec fn report_step(w: WatcherView, succeeded: bool) -> (WatcherView, ActionView) {
    match w.stage {
        Stage::Configuring => if succeeded {
            (
                WatcherView { stage: Stage::Subscribing, ..w },
                ActionView::Perform(CallView::Subscribe(w.filter)),
            )
        } else {
            (stopped(), ActionView::Finish(Err(ScanError::PlatformConfig)))
        },
        Stage::Subscribing => if succeeded {
            (WatcherView { stage: Stage::Starting, ..w }, ActionView::Perform(CallView::Start))
        } else {
            (stopped(), ActionView::Finish(Err(ScanError::PlatformSubscribe)))
        },
        Stage::Starting => if succeeded {
            (WatcherView { stage: Stage::Scanning, ..w }, ActionView::Finish(Ok(())))
        } else {
            (stopped(), ActionView::Finish(Err(ScanError::PlatformStart)))
        },
        Stage::Stopping => if succeeded {
            (stopped(), ActionView::Finish(Ok(())))
        } else {
            (WatcherView { stage: Stage::Scanning, ..w }, ActionView::Finish(Err(ScanError::PlatformStop)))
        },
        _ => (w, ActionView::Finish(Err(ScanError::OutOfTurn))),
    }
}

impl BLEWatcher {
    /// A watcher with no session.
    pub fn new() -> (r: Self)
        ensures
            r@ == stopped(),
    {
        let r = BLEWatcher { stage: Stage::Stopped, filter: ScanFilter { services: Vec::new() } };
        assert(r@.filter =~= Set::<u128>::empty());
        r
    }

    fn reset(&mut self)
        ensures
            final(self)@ == stopped(),
    {
        self.stage = Stage::Stopped;
        self.filter = ScanFilter { services: Vec::new() };
        assert(self@.filter =~= Set::<u128>::empty());
    }

    /// Begins a session under `filter`, or refuses while one is live.
    pub fn start(&mut self, filter: ScanFilter) -> (r: Action)
        ensures
            (final(self)@, r@) == start_step(old(self)@, filter@),
    {
        if self.stage == Stage::Stopped {
            self.stage = Stage::Configuring;
            self.filter = filter;
            Action::Perform(PlatformCall::Configure)
        } else {
            Action::Finish(Err(ScanError::AlreadyScanning))
        }
    }

    /// Ends the session; harmless when there is none.
    pub fn stop(&mut self) -> (r: Action)
        ensures
            (final(self)@, r@) == stop_step(old(self)@),
    {
        if self.stage == Stage::Scanning {
            self.stage = Stage::Stopping;
            Action::Perform(PlatformCall::Stop)
        } else if self.stage == Stage::Stopped {
            Action::Finish(Ok(()))
        } else {
            Action::Finish(Err(ScanError::OutOfTurn))
        }
    }

    /// Takes the platform's answer to the pending call and says what comes next.
    pub fn platform_result(&mut self, succeeded: bool) -> (r: Action)
        ensures
            (final(self)@, r@) == report_step(old(self)@, succeeded),
    {
        match self.stage {
            Stage::Configuring => if succeeded {
                self.stage = Stage::Subscribing;
                Action::Perform(PlatformCall::Subscribe(self.filter.duplicate()))
            } else {
                self.reset();
                Action::Finish(Err(ScanError::PlatformConfig))
            },
            Stage::Subscribing => if succeeded {
                self.stage = Stage::Starting;
                Action::Perform(PlatformCall::Start)
            } else {
                self.reset();
                Action::Finish(Err(ScanError::PlatformSubscribe))
            },
            Stage::Starting => if succeeded {
                self.stage = Stage::Scanning;
                Action::Finish(Ok(()))
            } else {
                self.reset();
                Action::Finish(Err(ScanError::PlatformStart))
            },
            Stage::Stopping => if succeeded {
                self.reset();
                Action::Finish(Ok(()))
            } else {
                self.stage = Stage::Scanning;
                Action::Finish(Err(ScanError::PlatformStop))
            },
            _ => Action::Finish(Err(ScanError::OutOfTurn)),
        }
    }

    /// Where the watcher stands.
    pub fn stage(&self) -> (r: Stage)
        ensures
            r == self@.stage,
    {
        self.stage
    }

    /// Whether a session is scanning.
    pub fn is_scanning(&self) -> (r: bool)
        ensures
            r == (self@.stage == Stage::Scanning),
    {
        self.stage == Stage::Scanning
    }
}

/// A start made while a session is live, however far its own start got, is
/// refused with `AlreadyScanning` and changes nothing. In particular, after a
/// start whose three platform calls all succeeded, a second start leaves the
/// first filter registered and the session scanning.
pub proof fn lemma_second_start_refused(w: WatcherView, first: Set<u128>, second: Set<u128>)
    ensures
        w.stage != Stage::Stopped ==> start_step(w, second) == (
        w,
        ActionView::Finish(Err(ScanError::AlreadyScanning)),
        ),
        ({
            let s1 = start_step(stopped(), first).0;
            let s2 = report_step(s1, true).0;
            let s3 = report_step(s2, true).0;
            let s4 = report_step(s3, true).0;
            &&& s4 == WatcherView { stage: Stage::Scanning, filter: first }
            &&& start_step(s4, second) == (s4, ActionView::Finish(Err(ScanError::AlreadyScanning)))
        }),
{
}

/// Stopping a watcher that is stopped succeeds and changes nothing.
pub proof fn lemma_stop_when_stopped(w: WatcherView)
    requires
        w.stage == Stage::Stopped,
    ensures
        stop_step(w) == (w, ActionView::Finish(Ok::<(), ScanError>(()))),
{
}

} // verus!
