use vstd::prelude::*;

verus! {

/// Which of the two layouts the display shows.
#[derive(Clone, Copy, Debug, PartialEq, Eq, Structural)]
pub enum DisplayMode {
    SensorView,
    RequestView,
}

/// The text stored before any request has carried a usable parameter.
pub open spec fn default_parameter() -> Seq<char> {
    seq!['N', 'e', 'n', 'h', 'u', 'm']
}

/// The three values shared by the request handler and the main loop.
///
/// Callers that share a store between threads keep it behind one lock and
/// call each operation while holding it.
pub struct StateStore {
    request_count: u32,
    last_parameter: String,
    mode: DisplayMode,
}

/// Mathematical model of a `StateStore`.
pub struct StoreView {
    pub count: nat,
    pub last: Seq<char>,
    pub mode: DisplayMode,
}

impl View for StateStore {
    type V = StoreView;

    closed spec fn view(&self) -> StoreView {
        StoreView { count: self.request_count as nat, last: self.last_parameter@, mode: self.mode }
    }
}

/// A parameter is usable when it is present and not empty.
pub open spec fn is_usable(p: Option<Seq<char>>) -> bool {
    p matches Some(s) && s.len() > 0
}

/// The store after one request carrying `p`: one more request, the parameter
/// kept when usable, and the display forced to the request view.
pub open spec fn after_request(v: StoreView, p: Option<Seq<char>>) -> StoreView {
    StoreView {
        count: v.count + 1,
        last: if is_usable(p) { p->0 } else { v.last },
        mode: DisplayMode::RequestView,
    }
}

/// One operation on the store, by either thread of control.
pub enum StoreEvent {
    /// The request handler records a request with this extracted parameter.
    Request(Option<Seq<char>>),
    /// The main loop reads the counters or the mode.
    Read,
    /// The main loop sets the display mode.
    SetMode(DisplayMode),
}

pub open spec fn apply_event(v: StoreView, e: StoreEvent) -> StoreView {
    match e {
        StoreEvent::Request(p) => after_request(v, p),
        StoreEvent::Read => v,
        StoreEvent::SetMode(m) => StoreView { mode: m, ..v },
    }
}

/// The store after the events `es`, applied in order.
pub open spec fn after_events(v: StoreView, es: Seq<StoreEvent>) -> StoreView
    decreases es.len(),
{
    if es.len() == 0 {
        v
    } else {
        apply_event(after_events(v, es.drop_last()), es.last())
    }
}

/// How many of the events `es` are requests.
pub open spec fn requests_in(es: Seq<StoreEvent>) -> nat
    decreases es.len(),
{
    if es.len() == 0 {
        0
    } else {
        requests_in(es.drop_last()) + if es.last() is Request { 1nat } else { 0nat }
    }
}

/// Event `i` of `es` is a request whose parameter is usable.
pub open spec fn usable_request_at(es: Seq<StoreEvent>, i: int) -> bool {
    0 <= i < es.len() && (es[i] matches StoreEvent::Request(p) && is_usable(p))
}

impl StateStore {
    /// A fresh store: no request yet, the default parameter text, the sensor view.
    pub fn new() -> (r: StateStore)
        ensures
            r@ == (StoreView { count: 0, last: default_parameter(), mode: DisplayMode::SensorView }),
    {
        let last = String::from_str("Nenhum");
        proof {
            reveal_strlit("Nenhum");
            assert(last@ =~= default_parameter());
        }
        StateStore { request_count: 0, last_parameter: last, mode: DisplayMode::SensorView }
    }

    /// Records one request in a single step: counts it, keeps its parameter
    /// when usable, and forces the request view. Returns the new count.
    pub fn increment_and_set(&mut self, parameter: Option<String>) -> (count: u32)
        requires
            old(self)@.count < u32::MAX,
        ensures
            final(self)@ == after_request(old(self)@, match parameter {
                Some(s) => Some(s@),
                None => None,
            }),
            count as nat == final(self)@.count,
    {
        self.request_count = self.request_count + 1;
        match parameter {
            Some(s) => {
                if s.as_str().unicode_len() > 0 {
                    self.last_parameter = s;
                }
            },
            None => {},
        }
        self.mode = DisplayMode::RequestView;
        self.request_count
    }

    /// Sets the display mode, whatever it was.
    pub fn force_mode(&mut self, mode: DisplayMode)
        ensures
            final(self)@ == apply_event(old(self)@, StoreEvent::SetMode(mode)),
    {
        self.mode = mode;
    }

    /// Returns the sensor view.
    pub fn clear_mode_to_sensor(&mut self)
        ensures
            final(self)@ == apply_event(old(self)@, StoreEvent::SetMode(DisplayMode::SensorView)),
    {
        self.mode = DisplayMode::SensorView;
    }

    /// The request count and the last parameter, read together.
    pub fn read_counters(&self) -> (r: (u32, String))
        ensures
            r.0 as nat == self@.count,
            r.1@ == self@.last,
    {
        (self.request_count, self.last_parameter.clone())
    }

    /// The current display mode.
    pub fn read_mode(&self) -> (r: DisplayMode)
        ensures
            r == self@.mode,
    {
        self.mode
    }
}

/// Every request adds exactly one to the count, however the main loop's
/// reads and mode changes interleave with the requests.
pub proof fn lemma_count_adds_requests(v: StoreView, es: Seq<StoreEvent>)
    ensures
        after_events(v, es).count == v.count + requests_in(es),
    decreases es.len(),
{
    if es.len() > 0 {
        lemma_count_adds_requests(v, es.drop_last());
    }
}

/// The stored parameter is that of the last request whose parameter was
/// usable, or the one stored before when no request carried a usable one.
pub proof fn lemma_last_usable_parameter(v: StoreView, es: Seq<StoreEvent>)
    ensures
        forall|i: int|
            #[trigger] usable_request_at(es, i) && (forall|j: int|
                i < j < es.len() ==> !usable_request_at(es, j)) ==> after_events(v, es).last
                == es[i]->Request_0->0,
        (forall|i: int| 0 <= i < es.len() ==> !usable_request_at(es, i)) ==> after_events(
            v,
            es,
        ).last == v.last,
    decreases es.len(),
{
    if es.len() > 0 {
        let init = es.drop_last();
        lemma_last_usable_parameter(v, init);
        assert forall|i: int|
            #[trigger] usable_request_at(es, i) && (forall|j: int|
                i < j < es.len() ==> !usable_request_at(es, j)) implies after_events(v, es).last
            == es[i]->Request_0->0 by {
            if i < es.len() - 1 {
                assert(!usable_request_at(es, es.len() - 1));
                assert(usable_request_at(init, i));
                assert forall|j: int| i < j < init.len() implies !usable_request_at(init, j) by {
                    assert(!usable_request_at(es, j));
                }
            }
        }
        if forall|i: int| 0 <= i < es.len() ==> !usable_request_at(es, i) {
            assert forall|i: int| 0 <= i < init.len() implies !usable_request_at(init, i) by {
                assert(!usable_request_at(es, i));
            }
            assert(!usable_request_at(es, es.len() - 1));
        }
    }
}

} // verus!
