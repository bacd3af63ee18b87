use vstd::prelude::*;
use crate::store::{after_request, apply_event, DisplayMode, StateStore, StoreEvent, StoreView};

verus! {

/// How long the request view stays up after it was last drawn, when
/// nothing else is configured.
pub const DEFAULT_DWELL_MS: u64 = 10000;

/// Pause between two ticks of the main loop, when nothing else is configured.
pub const DEFAULT_TICK_MS: u64 = 100;

/// Where the scheduler stands in the request view.
#[derive(Clone, Copy, Debug, PartialEq, Eq, Structural)]
pub enum Phase {
    /// The request view is not on display, or has not been drawn yet.
    Idle,
    /// The request view was drawn at `since_ms`, showing `seen_count` requests.
    Dwelling { since_ms: u64, seen_count: u32 },
}

/// What the main loop does in one tick.
#[derive(Clone, Debug, PartialEq, Eq)]
pub enum TickAction {
    /// Read the sensor, with retries, and draw the sensor view.
    PollSensor,
    /// Draw the request view with these values.
    ShowRequests { count: u32, parameter: String },
    /// Leave the display as it is.
    Hold,
}

/// Mathematical model of a `TickAction`.
pub enum TickSpec {
    PollSensor,
    ShowRequests { count: nat, parameter: Seq<char> },
    Hold,
}

impl View for TickAction {
    type V = TickSpec;

    open spec fn view(&self) -> TickSpec {
        match self {
            TickAction::PollSensor => TickSpec::PollSensor,
            TickAction::ShowRequests { count, parameter } => TickSpec::ShowRequests {
                count: *count as nat,
                parameter: parameter@,
            },
            TickAction::Hold => TickSpec::Hold,
        }
    }
}

/// The mode scheduler of the main loop.
pub struct Scheduler {
    dwell_ms: u64,
    phase: Phase,
}

/// Mathematical model of a `Scheduler`: the dwell, and when the request
/// view is up, the time it was drawn and the count it showed.
pub struct SchedulerView {
    pub dwell_ms: nat,
    pub dwelling: Option<DwellView>,
}

/// The request view was drawn at time `since`, showing `seen` requests.
pub struct DwellView {
    pub since: nat,
    pub seen: nat,
}

impl View for Scheduler {
    type V = SchedulerView;

    closed spec fn view(&self) -> SchedulerView {
        SchedulerView {
            dwell_ms: self.dwell_ms as nat,
            dwelling: match self.phase {
                Phase::Idle => None,
                Phase::Dwelling { since_ms, seen_count } => Some(
                    DwellView { since: since_ms as nat, seen: seen_count as nat },
                ),
            },
        }
    }
}

/// A full dwell has passed between `since` and `now`.
pub open spec fn dwell_over(dwell: nat, since: nat, now: nat) -> bool {
    now >= since + dwell
}

/// One tick from the scheduler `s`, the store `st` and the time `now`: the
/// next scheduler, the next store, and the action.
pub open spec fn tick_spec(s: SchedulerView, st: StoreView, now: nat) -> (
    SchedulerView,
    StoreView,
    TickSpec,
) {
    match st.mode {
        DisplayMode::SensorView => (SchedulerView { dwelling: None, ..s }, st, TickSpec::PollSensor),
        DisplayMode::RequestView => {
            if s.dwelling is Some && s.dwelling->0.seen == st.count {
                if dwell_over(s.dwell_ms, s.dwelling->0.since, now) {
                    (
                        SchedulerView { dwelling: None, ..s },
                        apply_event(st, StoreEvent::SetMode(DisplayMode::SensorView)),
                        TickSpec::PollSensor,
                    )
                } else {
                    (s, st, TickSpec::Hold)
                }
            } else {
                (
                    SchedulerView { dwelling: Some(DwellView { since: now, seen: st.count }), ..s },
                    st,
                    TickSpec::ShowRequests { count: st.count, parameter: st.last },
                )
            }
        },
    }
}

impl Scheduler {
    /// A scheduler whose request view stays up `dwell_ms` after it was last
    /// drawn.
    pub fn new(dwell_ms: u64) -> (r: Scheduler)
        ensures
            r@ == (SchedulerView { dwell_ms: dwell_ms as nat, dwelling: None }),
    {
        Scheduler { dwell_ms, phase: Phase::Idle }
    }

    /// A scheduler with the default dwell.
    pub fn with_defaults() -> (r: Scheduler)
        ensures
            r@ == (SchedulerView { dwell_ms: DEFAULT_DWELL_MS as nat, dwelling: None }),
    {
        Scheduler::new(DEFAULT_DWELL_MS)
    }

    /// One tick of the main loop at time `now_ms`: reads the mode and the
    /// counters from `store`, ends the request view once a full dwell has
    /// passed since it was drawn with no request in between, and says what
    /// to do.
    pub fn tick(&mut self, store: &mut StateStore, now_ms: u64) -> (action: TickAction)
        ensures
            (final(self)@, final(store)@, action@) == tick_spec(
                old(self)@,
                old(store)@,
                now_ms as nat,
            ),
    {
        match store.read_mode() {
            DisplayMode::SensorView => {
                self.phase = Phase::Idle;
                TickAction::PollSensor
            },
            DisplayMode::RequestView => {
                let (count, parameter) = store.read_counters();
                let (on_display, elapsed) = match self.phase {
                    Phase::Dwelling { since_ms, seen_count } => (
                        seen_count == count,
                        now_ms >= since_ms && now_ms - since_ms >= self.dwell_ms,
                    ),
                    Phase::Idle => (false, false),
                };
                if !on_display {
                    self.phase = Phase::Dwelling { since_ms: now_ms, seen_count: count };
                    TickAction::ShowRequests { count, parameter }
                } else if elapsed {
                    store.clear_mode_to_sensor();
                    self.phase = Phase::Idle;
                    TickAction::PollSensor
                } else {
                    TickAction::Hold
                }
            },
        }
    }
}

/// A request forces the request view; the main loop leaves it only once it
/// has drawn the latest request and a full dwell has passed since then;
/// a further request during the dwell keeps the request view up and has
/// it drawn again, which starts the dwell anew.
pub proof fn lemma_request_view_holds_for_dwell(
    s: SchedulerView,
    st: StoreView,
    p: Option<Seq<char>>,
    now: nat,
)
    ensures
        after_request(st, p).mode == DisplayMode::RequestView,
        st.mode == DisplayMode::RequestView && tick_spec(s, st, now).1.mode
            == DisplayMode::SensorView ==> s.dwelling == Some(DwellView { since: s.dwelling->0.since, seen: st.count })
            && dwell_over(s.dwell_ms, s.dwelling->0.since, now),
        s.dwelling is Some && s.dwelling->0.seen == st.count ==> {
            let (s2, st2, a) = tick_spec(s, after_request(st, p), now);
            &&& st2.mode == DisplayMode::RequestView
            &&& s2.dwelling == Some(DwellView { since: now, seen: st.count + 1 })
            &&& a is ShowRequests
        },
{
}

} // verus!
