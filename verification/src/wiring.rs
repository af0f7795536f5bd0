//! Reconnection-safe wiring of a client to a service that may move to another endpoint.
//!
//! A client is wired once, and then wired anew whenever an instance of the service comes or
//! goes. What to do at each point is decided here; resolving the service's endpoint, connecting
//! to it and waiting for events is for the caller, who performs the action and hands back what
//! came of it.

use vstd::prelude::*;

use crate::text::{same_text, texts};

verus! {

/// What became of an instance of a module.
#[derive(Debug, Clone, Copy, PartialEq, Eq, Structural)]
pub enum InstanceEventKind {
    /// It is known, but may not be ready yet.
    Registered,
    /// It can be reached.
    BecameHealthy,
    /// It has signed off.
    Deregistered,
    /// It was given up.
    Evicted,
}

/// An instance that offers services came, got ready or went.
#[derive(Debug)]
pub struct InstanceEvent {
    pub kind: InstanceEventKind,
    pub services: Vec<String>,
}

/// Why an endpoint is looked for.
#[derive(Debug, Clone, Copy, PartialEq, Eq, Structural)]
pub enum Purpose {
    /// For the first time.
    Initial,
    /// To replace the client. If that fails the existing client goes, or is kept.
    Rewire { remove_on_failure: bool },
}

/// How far the wiring has got.
#[derive(Debug, Clone, Copy, PartialEq, Eq, Structural)]
pub enum Stage {
    /// Events are not listened for yet.
    Unsubscribed,
    /// The endpoint is being looked for.
    Resolving { purpose: Purpose },
    /// The endpoint is known and the client is being connected.
    Connecting { purpose: Purpose },
    /// The new client is being registered.
    Registering { purpose: Purpose },
    /// Nothing to do until the next event.
    Watching,
    /// The end. Nothing is done any more.
    Finished,
}

/// What happened.
#[derive(Debug)]
pub enum WiringEvent {
    /// Events are listened for.
    Subscribed,
    /// The endpoint was found.
    Resolved { uri: String },
    /// The endpoint was not found.
    ResolveFailed,
    /// There is a new client.
    Connected,
    /// There is no new client.
    ConnectFailed,
    /// The new client is registered.
    ClientRegistered,
    /// Something became of an instance.
    Instance { event: InstanceEvent },
    /// Events were missed.
    Lagged,
    /// There will be no more events.
    SourceClosed,
    /// The watcher is to stop.
    Cancelled,
}

/// What to do next.
#[derive(Debug)]
pub enum WiringAction {
    /// Look for the endpoint of the service.
    Resolve,
    /// Connect a client to the endpoint.
    Connect { uri: String },
    /// Register the new client, in place of the existing one if there is one.
    RegisterClient,
    /// Make it known how often the client has been replaced, and wait for an event.
    Announce { rewires: u64 },
    /// Remove the existing client and wait for an event.
    RemoveClient,
    /// Leave the existing client as it is and wait for an event.
    KeepClient,
    /// Wait for an event.
    Wait,
    /// Give up: the first wiring failed.
    Fail,
    /// Stop.
    Stop,
}

/// What an [`InstanceEvent`] says.
pub struct InstanceEventView {
    pub kind: InstanceEventKind,
    pub services: Seq<Seq<char>>,
}

/// What a [`WiringEvent`] says.
pub enum WiringEventView {
    Subscribed,
    Resolved { uri: Seq<char> },
    ResolveFailed,
    Connected,
    ConnectFailed,
    ClientRegistered,
    Instance { event: InstanceEventView },
    Lagged,
    SourceClosed,
    Cancelled,
}

/// What a [`WiringAction`] says.
pub enum WiringActionView {
    Resolve,
    Connect { uri: Seq<char> },
    RegisterClient,
    Announce { rewires: nat },
    RemoveClient,
    KeepClient,
    Wait,
    Fail,
    Stop,
}

/// What a [`Wiring`] knows.
pub struct WiringView {
    pub service: Seq<char>,
    pub stage: Stage,
    pub rewires: nat,
}

impl View for InstanceEvent {
    type V = InstanceEventView;

    open spec fn view(&self) -> InstanceEventView {
        InstanceEventView { kind: self.kind, services: texts(self.services@) }
    }
}

impl View for WiringEvent {
    type V = WiringEventView;

    open spec fn view(&self) -> WiringEventView {
        match self {
            WiringEvent::Subscribed => WiringEventView::Subscribed,
            WiringEvent::Resolved { uri } => WiringEventView::Resolved { uri: uri@ },
            WiringEvent::ResolveFailed => WiringEventView::ResolveFailed,
            WiringEvent::Connected => WiringEventView::Connected,
            WiringEvent::ConnectFailed => WiringEventView::ConnectFailed,
            WiringEvent::ClientRegistered => WiringEventView::ClientRegistered,
            WiringEvent::Instance { event } => WiringEventView::Instance { event: event@ },
            WiringEvent::Lagged => WiringEventView::Lagged,
            WiringEvent::SourceClosed => WiringEventView::SourceClosed,
            WiringEvent::Cancelled => WiringEventView::Cancelled,
        }
    }
}

impl View for WiringAction {
    type V = WiringActionView;

    open spec fn view(&self) -> WiringActionView {
        match self {
            WiringAction::Resolve => WiringActionView::Resolve,
            WiringAction::Connect { uri } => WiringActionView::Connect { uri: uri@ },
            WiringAction::RegisterClient => WiringActionView::RegisterClient,
            WiringAction::Announce { rewires } => WiringActionView::Announce {
                rewires: *rewires as nat,
            },
            WiringAction::RemoveClient => WiringActionView::RemoveClient,
            WiringAction::KeepClient => WiringActionView::KeepClient,
            WiringAction::Wait => WiringActionView::Wait,
            WiringAction::Fail => WiringActionView::Fail,
            WiringAction::Stop => WiringActionView::Stop,
        }
    }
}

/// Whether an instance is gone after an event of this kind.
pub open spec fn is_destructive(kind: InstanceEventKind) -> bool {
    kind == InstanceEventKind::Deregistered || kind == InstanceEventKind::Evicted
}

impl WiringView {
    /// Nothing has been done for the service yet.
    pub open spec fn start(service: Seq<char>) -> WiringView {
        WiringView { service, stage: Stage::Unsubscribed, rewires: 0 }
    }

    /// Whether an event can happen at this stage.
    pub open spec fn accepts(self, event: WiringEventView) -> bool {
        match self.stage {
            Stage::Unsubscribed => event is Subscribed,
            Stage::Resolving { purpose } => event is Resolved || event is ResolveFailed,
            Stage::Connecting { purpose } => event is Connected || event is ConnectFailed,
            Stage::Registering { purpose } => event is ClientRegistered,
            Stage::Watching => event is Instance || event is Lagged || event is SourceClosed
                || event is Cancelled,
            Stage::Finished => false,
        }
    }

    /// What comes of an event: the next state and what to do.
    pub open spec fn step(self, event: WiringEventView) -> (WiringView, WiringActionView) {
        match event {
            WiringEventView::Subscribed => (
                WiringView { stage: Stage::Resolving { purpose: Purpose::Initial }, ..self },
                WiringActionView::Resolve,
            ),
            WiringEventView::Resolved { uri } => (
                WiringView { stage: Stage::Connecting { purpose: self.purpose() }, ..self },
                WiringActionView::Connect { uri },
            ),
            WiringEventView::Connected => (
                WiringView { stage: Stage::Registering { purpose: self.purpose() }, ..self },
                WiringActionView::RegisterClient,
            ),
            WiringEventView::ClientRegistered => match self.purpose() {
                Purpose::Initial => (
                    WiringView { stage: Stage::Watching, ..self },
                    WiringActionView::Wait,
                ),
                Purpose::Rewire { remove_on_failure } => (
                    WiringView { stage: Stage::Watching, rewires: self.rewires + 1, ..self },
                    WiringActionView::Announce { rewires: self.rewires + 1 },
                ),
            },
            WiringEventView::ResolveFailed | WiringEventView::ConnectFailed => self.after_failure(),
            WiringEventView::Instance { event } => if event.services.contains(self.service) {
                self.rewire(is_destructive(event.kind))
            } else {
                (self, WiringActionView::Wait)
            },
            WiringEventView::Lagged => self.rewire(true),
            WiringEventView::SourceClosed | WiringEventView::Cancelled => (
                WiringView { stage: Stage::Finished, ..self },
                WiringActionView::Stop,
            ),
        }
    }

    /// What the endpoint is looked for.
    pub open spec fn purpose(self) -> Purpose {
        match self.stage {
            Stage::Resolving { purpose } => purpose,
            Stage::Connecting { purpose } => purpose,
            Stage::Registering { purpose } => purpose,
            _ => Purpose::Initial,
        }
    }

    /// Start to replace the client.
    pub open spec fn rewire(self, remove_on_failure: bool) -> (WiringView, WiringActionView) {
        (
            WiringView {
                stage: Stage::Resolving { purpose: Purpose::Rewire { remove_on_failure } },
                ..self
            },
            WiringActionView::Resolve,
        )
    }

    /// There is no new client. The first time that is the end; later the existing client is
    /// removed if its instance may be gone, and kept if not.
    pub open spec fn after_failure(self) -> (WiringView, WiringActionView) {
        match self.purpose() {
            Purpose::Initial => (
                WiringView { stage: Stage::Finished, ..self },
                WiringActionView::Fail,
            ),
            Purpose::Rewire { remove_on_failure } => (
                WiringView { stage: Stage::Watching, ..self },
                if remove_on_failure {
                    WiringActionView::RemoveClient
                } else {
                    WiringActionView::KeepClient
                },
            ),
        }
    }
}

/// The wiring of a client for a service.
#[derive(Debug)]
pub struct Wiring {
    service: String,
    stage: Stage,
    rewires: u64,
}

impl View for Wiring {
    type V = WiringView;

    closed spec fn view(&self) -> WiringView {
        WiringView { service: self.service@, stage: self.stage, rewires: self.rewires as nat }
    }
}

impl Wiring {
    /// Nothing has been done yet. Events are to be subscribed to first, so that those that
    /// come while the client is wired for the first time are not missed.
    pub fn new(service_name: &str) -> (wiring: Self)
        ensures
            wiring@ == WiringView::start(service_name@),
    {
        Wiring { service: service_name.to_owned(), stage: Stage::Unsubscribed, rewires: 0 }
    }

    /// The name of the service.
    pub fn service(&self) -> (name: &str)
        ensures
            name@ == self@.service,
    {
        self.service.as_str()
    }

    /// How often the client has been replaced.
    pub fn rewires(&self) -> (count: u64)
        ensures
            count == self@.rewires,
    {
        self.rewires
    }

    /// Whether an event can happen at this stage.
    pub fn can_take(&self, event: &WiringEvent) -> (can: bool)
        ensures
            can == self@.accepts(event@),
    {
        match (self.stage, event) {
            (Stage::Unsubscribed, WiringEvent::Subscribed) => true,
            (Stage::Resolving { purpose: _ }, WiringEvent::Resolved { uri: _ }) => true,
            (Stage::Resolving { purpose: _ }, WiringEvent::ResolveFailed) => true,
            (Stage::Connecting { purpose: _ }, WiringEvent::Connected) => true,
            (Stage::Connecting { purpose: _ }, WiringEvent::ConnectFailed) => true,
            (Stage::Registering { purpose: _ }, WiringEvent::ClientRegistered) => true,
            (Stage::Watching, WiringEvent::Instance { event: _ }) => true,
            (Stage::Watching, WiringEvent::Lagged) => true,
            (Stage::Watching, WiringEvent::SourceClosed) => true,
            (Stage::Watching, WiringEvent::Cancelled) => true,
            _ => false,
        }
    }

    fn concerns(&self, event: &InstanceEvent) -> (relevant: bool)
        ensures
            relevant == event@.services.contains(self@.service),
    {
        for i in 0..event.services.len()
            invariant
                forall|j: int|
                    0 <= j < i ==> #[trigger] texts(event.services@)[j] != self.service@,
        {
            if same_text(event.services[i].as_str(), self.service.as_str()) {
                assert(texts(event.services@)[i as int] == self.service@);
                return true;
            }
        }
        false
    }

    fn purpose(&self) -> (purpose: Purpose)
        ensures
            purpose == self@.purpose(),
    {
        match self.stage {
            Stage::Resolving { purpose } => purpose,
            Stage::Connecting { purpose } => purpose,
            Stage::Registering { purpose } => purpose,
            _ => Purpose::Initial,
        }
    }

    fn rewire(&mut self, remove_on_failure: bool) -> (action: WiringAction)
        ensures
            (final(self)@, action@) == old(self)@.rewire(remove_on_failure),
    {
        self.stage = Stage::Resolving { purpose: Purpose::Rewire { remove_on_failure } };
        WiringAction::Resolve
    }

    fn after_failure(&mut self) -> (action: WiringAction)
        ensures
            (final(self)@, action@) == old(self)@.after_failure(),
    {
        match self.purpose() {
            Purpose::Initial => {
                self.stage = Stage::Finished;
                WiringAction::Fail
            },
            Purpose::Rewire { remove_on_failure } => {
                self.stage = Stage::Watching;
                if remove_on_failure {
                    WiringAction::RemoveClient
                } else {
                    WiringAction::KeepClient
                }
            },
        }
    }

    /// Take in what happened and say what to do next.
    ///
    /// In multi-instance topologies any event for the watched service leads to a new client,
    /// even if the event doesn't affect the current client's endpoint.
    ///
    /// Additive events (`Registered`, `BecameHealthy`) mean "not ready yet" on failure: keeping
    /// the existing client is strictly better than removing it.
    pub fn step(&mut self, event: WiringEvent) -> (action: WiringAction)
        requires
            old(self)@.accepts(event@),
            old(self)@.rewires < u64::MAX,
        ensures
            (final(self)@, action@) == old(self)@.step(event@),
    {
        match event {
            WiringEvent::Subscribed => {
                self.stage = Stage::Resolving { purpose: Purpose::Initial };
                WiringAction::Resolve
            },
            WiringEvent::Resolved { uri } => {
                self.stage = Stage::Connecting { purpose: self.purpose() };
                WiringAction::Connect { uri }
            },
            WiringEvent::Connected => {
                self.stage = Stage::Registering { purpose: self.purpose() };
                WiringAction::RegisterClient
            },
            WiringEvent::ClientRegistered => match self.purpose() {
                Purpose::Initial => {
                    self.stage = Stage::Watching;
                    WiringAction::Wait
                },
                Purpose::Rewire { remove_on_failure: _ } => {
                    self.stage = Stage::Watching;
                    self.rewires = self.rewires + 1;
                    WiringAction::Announce { rewires: self.rewires }
                },
            },
            WiringEvent::ResolveFailed => self.after_failure(),
            WiringEvent::ConnectFailed => self.after_failure(),
            WiringEvent::Instance { event } => {
                if !self.concerns(&event) {
                    return WiringAction::Wait;
                }
                let destructive = match event.kind {
                    InstanceEventKind::Deregistered | InstanceEventKind::Evicted => true,
                    _ => false,
                };
                self.rewire(destructive)
            },
            WiringEvent::Lagged => self.rewire(true),
            WiringEvent::SourceClosed | WiringEvent::Cancelled => {
                self.stage = Stage::Finished;
                WiringAction::Stop
            },
        }
    }
}

/// What the handle of a watcher is told.
#[derive(Debug, Clone, Copy, PartialEq, Eq, Structural)]
pub enum RewireSignal {
    /// The client has been replaced, for the given number of times in all.
    Rewired { count: u64 },
    /// The watcher has stopped.
    Exited,
}

/// The watcher background task has exited (cancelled or event source closed).
#[derive(Debug, Clone, Copy, PartialEq, Eq, Structural)]
pub struct WatcherGoneError;

impl WatcherGoneError {
    /// The error as text.
    pub fn message(&self) -> (text: &'static str)
        ensures
            text@ == "wire_and_watch background task has exited"@,
    {
        "wire_and_watch background task has exited"
    }
}

/// Handle for monitoring re-wire activity.
#[derive(Debug, Clone, Copy)]
pub struct GrpcWatcher;

impl GrpcWatcher {
    /// What the next signal means: the total re-wire count, or that there will be no more.
    pub fn rewired(&self, signal: RewireSignal) -> (outcome: Result<u64, WatcherGoneError>)
        ensures
            outcome == (match signal {
                RewireSignal::Rewired { count } => Ok(count),
                RewireSignal::Exited => Err(WatcherGoneError),
            }),
    {
        match signal {
            RewireSignal::Rewired { count } => Ok(count),
            RewireSignal::Exited => Err(WatcherGoneError),
        }
    }
}

/// A course of events, from the state that it starts from.
pub open spec fn is_course(start: WiringView, events: Seq<WiringEventView>) -> bool
    decreases events.len(),
{
    events.len() > 0 ==> is_course(start, events.drop_last()) && state_after(
        start,
        events.drop_last(),
    ).accepts(events.last())
}

/// The state after a course of events.
pub open spec fn state_after(start: WiringView, events: Seq<WiringEventView>) -> WiringView
    decreases events.len(),
{
    if events.len() == 0 {
        start
    } else {
        state_after(start, events.drop_last()).step(events.last()).0
    }
}

/// The action that the last event of a course leads to.
pub open spec fn last_action(start: WiringView, events: Seq<WiringEventView>) -> WiringActionView
    recommends
        events.len() > 0,
{
    state_after(start, events.drop_last()).step(events.last()).1
}

/// Whether a client is registered after a course of events. It is once that has been reported,
/// and it is not after it was to be removed.
pub open spec fn client_after(start: WiringView, events: Seq<WiringEventView>) -> bool
    decreases events.len(),
{
    if events.len() == 0 {
        false
    } else if events.last() is ClientRegistered {
        true
    } else if last_action(start, events) is RemoveClient {
        false
    } else {
        client_after(start, events.drop_last())
    }
}

/// How often a client is registered in a course of events.
pub open spec fn registrations(events: Seq<WiringEventView>) -> nat
    decreases events.len(),
{
    if events.len() == 0 {
        0
    } else {
        registrations(events.drop_last()) + if events.last() is ClientRegistered {
            1nat
        } else {
            0nat
        }
    }
}

/// Whether an event may mean that the instance behind the client is gone.
pub open spec fn may_lose_client(service: Seq<char>, event: WiringEventView) -> bool {
    match event {
        WiringEventView::Instance { event } => is_destructive(event.kind)
            && event.services.contains(service),
        WiringEventView::Lagged => true,
        _ => false,
    }
}

/// The service never changes.
proof fn lemma_service_stays(start: WiringView, events: Seq<WiringEventView>)
    ensures
        state_after(start, events).service == start.service,
    decreases events.len(),
{
    if events.len() > 0 {
        lemma_service_stays(start, events.drop_last());
    }
}

/// Events are subscribed to before anything else is done.
pub proof fn law_subscribes_first(service: Seq<char>, events: Seq<WiringEventView>)
    requires
        is_course(WiringView::start(service), events),
        events.len() > 0,
    ensures
        events[0] is Subscribed,
    decreases events.len(),
{
    if events.len() > 1 {
        law_subscribes_first(service, events.drop_last());
        assert(events.drop_last()[0] == events[0]);
    } else {
        assert(events.drop_last() =~= Seq::empty());
        assert(state_after(WiringView::start(service), events.drop_last()) == WiringView::start(
            service,
        ));
    }
}

/// What is known of the count on the way: it is one less than the clients that have been
/// registered, once there is one.
proof fn lemma_count(service: Seq<char>, events: Seq<WiringEventView>)
    requires
        is_course(WiringView::start(service), events),
    ensures
        ({
            let state = state_after(WiringView::start(service), events);
            let initial = match state.stage {
                Stage::Unsubscribed => true,
                Stage::Resolving { purpose } => purpose is Initial,
                Stage::Connecting { purpose } => purpose is Initial,
                Stage::Registering { purpose } => purpose is Initial,
                Stage::Watching => false,
                Stage::Finished => registrations(events) == 0,
            };
            if initial {
                state.rewires == 0 && registrations(events) == 0
            } else {
                registrations(events) == state.rewires + 1
            }
        }),
    decreases events.len(),
{
    if events.len() > 0 {
        lemma_count(service, events.drop_last());
    }
}

/// The count is the total number of replacements so far: of all the clients that have been
/// registered, every one but the first.
pub proof fn law_count_is_of_replacements(service: Seq<char>, events: Seq<WiringEventView>)
    requires
        is_course(WiringView::start(service), events),
    ensures
        state_after(WiringView::start(service), events).rewires == (if registrations(events) == 0 {
            0
        } else {
            registrations(events) - 1
        }),
{
    lemma_count(service, events);
}

/// A count is made known only when the client that it counts is registered: it is at least
/// one, it is the total number of replacements so far, and the new client is in place.
pub proof fn law_announced_client_is_registered(service: Seq<char>, events: Seq<WiringEventView>)
    requires
        is_course(WiringView::start(service), events),
        events.len() > 0,
        last_action(WiringView::start(service), events) is Announce,
    ensures
        last_action(WiringView::start(service), events)->rewires >= 1,
        last_action(WiringView::start(service), events)->rewires == registrations(events) - 1,
        events.last() is ClientRegistered,
        client_after(WiringView::start(service), events),
{
    lemma_count(service, events);
}

/// Each replacement makes a count known that is one more than before, and nothing else changes
/// the count: over time it never goes down.
pub proof fn law_announced_count(state: WiringView, event: WiringEventView)
    ensures
        state.step(event).1 matches WiringActionView::Announce { rewires } ==> rewires
            == state.rewires + 1 && state.step(event).0.rewires == rewires,
        state.step(event).1 !is Announce ==> state.step(event).0.rewires == state.rewires,
{
}

/// The count never goes down, whatever else happens.
pub proof fn law_count_never_falls(
    start: WiringView,
    events: Seq<WiringEventView>,
    more: Seq<WiringEventView>,
)
    ensures
        state_after(start, events).rewires <= state_after(start, events + more).rewires,
    decreases more.len(),
{
    if more.len() == 0 {
        assert(events + more =~= events);
    } else {
        law_count_never_falls(start, events, more.drop_last());
        assert((events + more).drop_last() =~= events + more.drop_last());
        law_announced_count(state_after(start, events + more.drop_last()), more.last());
    }
}

/// An event that does not concern the service changes nothing.
pub proof fn law_unrelated_events_change_nothing(state: WiringView, event: InstanceEventView)
    requires
        !event.services.contains(state.service),
    ensures
        state.step(WiringEventView::Instance { event }) == (state, WiringActionView::Wait),
{
}

/// After the end nothing happens.
pub proof fn law_nothing_after_the_end(state: WiringView, event: WiringEventView)
    requires
        state.stage is Finished,
    ensures
        !state.accepts(event),
{
}

/// A watcher that is told to stop, or that will get no more events, stops.
pub proof fn law_stops(state: WiringView, event: WiringEventView)
    requires
        event is Cancelled || event is SourceClosed,
    ensures
        state.step(event).0.stage is Finished,
        state.step(event).1 is Stop,
{
}

/// What is known on the way of a course of events in which the client's instance never goes.
proof fn lemma_no_removal(service: Seq<char>, events: Seq<WiringEventView>)
    requires
        is_course(WiringView::start(service), events),
        forall|i: int|
            0 <= i < events.len() ==> !may_lose_client(service, #[trigger] events[i]),
    ensures
        ({
            let state = state_after(WiringView::start(service), events);
            &&& state.stage matches Stage::Resolving { purpose } ==> purpose
                != (Purpose::Rewire { remove_on_failure: true })
            &&& state.stage matches Stage::Connecting { purpose } ==> purpose
                != (Purpose::Rewire { remove_on_failure: true })
            &&& state.stage matches Stage::Registering { purpose } ==> purpose
                != (Purpose::Rewire { remove_on_failure: true })
            &&& events.len() > 0 ==> last_action(
                WiringView::start(service),
                events,
            ) !is RemoveClient
            &&& state.stage is Watching || state.purpose() is Rewire ==> client_after(
                WiringView::start(service),
                events,
            )
        }),
    decreases events.len(),
{
    let start = WiringView::start(service);
    if events.len() > 0 {
        let before = events.drop_last();
        assert forall|i: int| 0 <= i < before.len() implies !may_lose_client(
            service,
            #[trigger] before[i],
        ) by {
            assert(before[i] == events[i]);
        }
        lemma_no_removal(service, before);
        lemma_service_stays(start, before);
        assert(events.last() == events[events.len() - 1]);
    }
}

/// Additive events never cost the client: while nothing says that the instance behind it may
/// be gone, a client that has been wired stays registered, whatever attempts to replace it
/// fail.
pub proof fn law_client_survives_additive_events(service: Seq<char>, events: Seq<WiringEventView>)
    requires
        is_course(WiringView::start(service), events),
        forall|i: int|
            0 <= i < events.len() ==> !may_lose_client(service, #[trigger] events[i]),
        state_after(WiringView::start(service), events).stage is Watching,
    ensures
        client_after(WiringView::start(service), events),
{
    lemma_no_removal(service, events);
}

/// Once the service is found and connected to, the new client is registered and nothing else
/// can happen before; then a client is there, whatever went before.
pub proof fn law_success_registers_a_client(
    start: WiringView,
    events: Seq<WiringEventView>,
    event: WiringEventView,
)
    requires
        events.len() > 0,
        events.last() is Connected,
        state_after(start, events).accepts(event),
    ensures
        last_action(start, events) is RegisterClient,
        event is ClientRegistered,
        client_after(start, events.push(event)),
        state_after(start, events.push(event)).stage is Watching,
{
    assert(events.push(event).drop_last() =~= events);
}

/// A client is only removed because the attempt to replace it failed after its instance may
/// have gone.
pub proof fn law_removal_needs_a_reason(state: WiringView, event: WiringEventView)
    requires
        state.step(event).1 is RemoveClient,
    ensures
        event is ResolveFailed || event is ConnectFailed,
        state.purpose() == (Purpose::Rewire { remove_on_failure: true }),
{
}

/// A new wiring is for the service that it was given, counts no replacement, and can only take
/// in that events are listened for.
pub proof fn law_new_wiring(
    service_name: &str,
    wiring: Wiring,
    service: &str,
    rewires: u64,
    event: WiringEvent,
    can: bool,
)
    requires
        call_ensures(Wiring::new, (service_name,), wiring),
        call_ensures(Wiring::service, (&wiring,), service),
        call_ensures(Wiring::rewires, (&wiring,), rewires),
        call_ensures(Wiring::can_take, (&wiring, &event), can),
    ensures
        service@ == service_name@,
        rewires == 0,
        can <==> event is Subscribed,
{
}

/// What can come next goes by the action: an attempt to find the endpoint succeeds or fails, so
/// does one to connect, a client that was to be registered is, and while nothing is to be done
/// an event comes, some are missed, there are no more, or the watcher is to stop. After the end
/// nothing comes.
pub proof fn law_what_follows_an_action(
    wiring: &mut Wiring,
    event: WiringEvent,
    action: WiringAction,
    next: WiringEvent,
    can: bool,
)
    requires
        call_ensures(Wiring::can_take, (&*old(wiring), &event), true),
        call_ensures(Wiring::step, (wiring, event), action),
        call_ensures(Wiring::can_take, (&*final(wiring), &next), can),
    ensures
        can <==> match action {
            WiringAction::Resolve => next is Resolved || next is ResolveFailed,
            WiringAction::Connect { uri: _ } => next is Connected || next is ConnectFailed,
            WiringAction::RegisterClient => next is ClientRegistered,
            WiringAction::Announce { rewires: _ } => next is Instance || next is Lagged
                || next is SourceClosed || next is Cancelled,
            WiringAction::RemoveClient => next is Instance || next is Lagged || next is SourceClosed
                || next is Cancelled,
            WiringAction::KeepClient => next is Instance || next is Lagged || next is SourceClosed
                || next is Cancelled,
            WiringAction::Wait => next is Instance || next is Lagged || next is SourceClosed
                || next is Cancelled,
            WiringAction::Fail => false,
            WiringAction::Stop => false,
        },
{
}

/// Every event that can be taken is, until the count of replacements is at its limit.
pub proof fn law_takes_what_it_can(wiring: &mut Wiring, event: WiringEvent, rewires: u64)
    requires
        call_ensures(Wiring::can_take, (&*old(wiring), &event), true),
        call_ensures(Wiring::rewires, (&*old(wiring),), rewires),
        rewires < u64::MAX,
    ensures
        call_requires(Wiring::step, (wiring, event)),
{
}

/// The service stays the same, and the count changes with an announcement only.
pub proof fn law_step_keeps_the_rest(wiring: &mut Wiring, event: WiringEvent, action: WiringAction)
    requires
        call_ensures(Wiring::step, (wiring, event), action),
    ensures
        final(wiring)@.service == old(wiring)@.service,
        action !is Announce ==> final(wiring)@.rewires == old(wiring)@.rewires,
{
}

/// Once events are listened for, the endpoint is looked for, for the first time.
pub proof fn law_subscription_starts_the_wiring(wiring: &mut Wiring, action: WiringAction)
    requires
        call_ensures(Wiring::step, (wiring, WiringEvent::Subscribed), action),
    ensures
        action is Resolve,
        final(wiring)@.stage == (Stage::Resolving { purpose: Purpose::Initial }),
{
}

/// The client is connected to the endpoint that was just found, whatever for: for the first
/// time or to replace the client. What it is for is not forgotten.
pub proof fn law_connects_to_the_endpoint_found(
    wiring: &mut Wiring,
    found: String,
    action: WiringAction,
)
    requires
        call_ensures(Wiring::step, (wiring, WiringEvent::Resolved { uri: found }), action),
    ensures
        action matches WiringAction::Connect { uri: endpoint } && endpoint@ == found@,
        old(wiring)@.stage matches Stage::Resolving { purpose } ==> final(wiring)@.stage == (
        Stage::Connecting { purpose }),
{
}

/// A client that was connected is to be registered, whatever for.
pub proof fn law_registers_the_connected_client(
    wiring: &mut Wiring,
    action: WiringAction,
    purpose: Purpose,
)
    requires
        old(wiring)@.stage == (Stage::Connecting { purpose }),
        call_ensures(Wiring::step, (wiring, WiringEvent::Connected), action),
    ensures
        action is RegisterClient,
        final(wiring)@.stage == (Stage::Registering { purpose }),
{
}

/// Once a client is registered the watcher waits for the next event. If it has replaced another
/// it is counted, and the count is made known.
pub proof fn law_counts_the_registered_client(
    wiring: &mut Wiring,
    action: WiringAction,
    purpose: Purpose,
    count: u64,
    new_count: u64,
)
    requires
        old(wiring)@.stage == (Stage::Registering { purpose }),
        call_ensures(Wiring::step, (wiring, WiringEvent::ClientRegistered), action),
        call_ensures(Wiring::rewires, (&*old(wiring),), count),
        call_ensures(Wiring::rewires, (&*final(wiring),), new_count),
    ensures
        final(wiring)@.stage is Watching,
        purpose is Initial ==> action is Wait && new_count == count,
        purpose is Rewire ==> new_count == count + 1 && (action matches WiringAction::Announce {
            rewires,
        } && rewires == new_count),
{
}

/// If there is no endpoint or no connection, the first wiring has failed and that is the end.
/// Later the existing client is removed where its instance may be gone and kept where not, and
/// the watcher waits for the next event.
pub proof fn law_failure_goes_by_the_purpose(
    wiring: &mut Wiring,
    event: WiringEvent,
    action: WiringAction,
    purpose: Purpose,
)
    requires
        old(wiring)@.stage == (Stage::Resolving { purpose }) || old(wiring)@.stage == (
        Stage::Connecting { purpose }),
        event is ResolveFailed || event is ConnectFailed,
        call_ensures(Wiring::step, (wiring, event), action),
    ensures
        purpose is Initial ==> action is Fail && final(wiring)@.stage is Finished,
        purpose == (Purpose::Rewire { remove_on_failure: true }) ==> action is RemoveClient
            && final(wiring)@.stage is Watching,
        purpose == (Purpose::Rewire { remove_on_failure: false }) ==> action is KeepClient
            && final(wiring)@.stage is Watching,
{
}

/// Any event for the watched service, wherever its name stands among the services of the
/// instance, leads to a new client; if that fails the existing client goes if the instance has
/// signed off or was given up, and stays if it is new or got ready.
pub proof fn law_event_for_the_service_replaces_the_client(
    wiring: &mut Wiring,
    event: InstanceEvent,
    i: int,
    action: WiringAction,
)
    requires
        0 <= i < event.services@.len(),
        event.services@[i]@ == old(wiring)@.service,
        call_ensures(Wiring::step, (wiring, WiringEvent::Instance { event }), action),
    ensures
        action is Resolve,
        final(wiring)@.stage == (Stage::Resolving {
            purpose: Purpose::Rewire {
                remove_on_failure: match event.kind {
                    InstanceEventKind::Registered => false,
                    InstanceEventKind::BecameHealthy => false,
                    InstanceEventKind::Deregistered => true,
                    InstanceEventKind::Evicted => true,
                },
            },
        }),
{
    assert(texts(event.services@)[i] == event.services@[i]@);
}

/// An event for other services alone changes nothing.
pub proof fn law_event_for_others_changes_nothing(
    wiring: &mut Wiring,
    event: InstanceEvent,
    action: WiringAction,
)
    requires
        forall|i: int|
            0 <= i < event.services@.len() ==> (#[trigger] event.services@[i])@
                != old(wiring)@.service,
        call_ensures(Wiring::step, (wiring, WiringEvent::Instance { event }), action),
    ensures
        action is Wait,
        final(wiring)@ == old(wiring)@,
{
    let services = texts(event.services@);
    assert forall|i: int| 0 <= i < services.len() implies services[i] != old(wiring)@.service by {
        assert(services[i] == event.services@[i]@);
    }
}

/// Where events were missed the instance may be gone: a new client is looked for, and if that
/// fails the existing one goes.
pub proof fn law_missed_events_replace_the_client(wiring: &mut Wiring, action: WiringAction)
    requires
        call_ensures(Wiring::step, (wiring, WiringEvent::Lagged), action),
    ensures
        action is Resolve,
        final(wiring)@.stage == (Stage::Resolving {
            purpose: Purpose::Rewire { remove_on_failure: true },
        }),
{
}

/// A watcher that is told to stop, or that will get no more events, stops for good and leaves
/// the client as it is.
pub proof fn law_stops_for_good(wiring: &mut Wiring, event: WiringEvent, action: WiringAction)
    requires
        event is Cancelled || event is SourceClosed,
        call_ensures(Wiring::step, (wiring, event), action),
    ensures
        action is Stop,
        final(wiring)@.stage is Finished,
{
}

/// The name that a wiring gives for its service is that of the service that it watches, and the
/// count that it gives is the one that it keeps.
pub proof fn law_wiring_tells_what_it_knows(wiring: &Wiring, service: &str, rewires: u64)
    requires
        call_ensures(Wiring::service, (wiring,), service),
        call_ensures(Wiring::rewires, (wiring,), rewires),
    ensures
        service@ == wiring@.service,
        rewires == wiring@.rewires,
{
}

/// From an event that calls for a new client to the client: the endpoint that is found is the
/// one that is connected to, then the client is registered, then it is counted.
pub proof fn law_replacement_runs_through(
    state: WiringView,
    event: WiringEventView,
    uri: Seq<char>,
)
    requires
        event is Lagged || (event matches WiringEventView::Instance { event: instance }
            && instance.services.contains(state.service)),
    ensures
        ({
            let looking = state.step(event);
            let connecting = looking.0.step(WiringEventView::Resolved { uri });
            let registering = connecting.0.step(WiringEventView::Connected);
            let done = registering.0.step(WiringEventView::ClientRegistered);
            &&& looking.1 is Resolve
            &&& connecting.1 is Connect && connecting.1->Connect_uri == uri
            &&& registering.1 is RegisterClient
            &&& done.1 is Announce && done.1->Announce_rewires == state.rewires + 1
            &&& done.0.stage is Watching
            &&& done.0.rewires == state.rewires + 1
            &&& done.0.service == state.service
        }),
{
}

/// An attempt to replace the client that fails, whether the endpoint is not found or cannot be
/// connected to, costs the existing client if and only if the event that called for the new one
/// said that an instance signed off or was given up, or that events were missed.
pub proof fn law_failed_replacement_goes_by_the_event(
    state: WiringView,
    event: WiringEventView,
    uri: Seq<char>,
)
    requires
        event is Lagged || (event matches WiringEventView::Instance { event: instance }
            && instance.services.contains(state.service)),
    ensures
        ({
            let looking = state.step(event).0;
            let not_found = looking.step(WiringEventView::ResolveFailed);
            let connecting = looking.step(WiringEventView::Resolved { uri }).0;
            let not_connected = connecting.step(WiringEventView::ConnectFailed);
            let gone = match event {
                WiringEventView::Instance { event: instance } => instance.kind is Deregistered
                    || instance.kind is Evicted,
                _ => true,
            };
            &&& not_found == not_connected
            &&& gone ==> not_found.1 is RemoveClient
            &&& !gone ==> not_found.1 is KeepClient
            &&& not_found.0.stage is Watching
            &&& not_found.0.rewires == state.rewires
        }),
{
}

/// A signal of a new client gives the count that it carries, and the signal that the watcher
/// has stopped gives the error.
pub proof fn law_signal_gives_the_count(
    watcher: &GrpcWatcher,
    signal: RewireSignal,
    outcome: Result<u64, WatcherGoneError>,
)
    requires
        call_ensures(GrpcWatcher::rewired, (watcher, signal), outcome),
    ensures
        signal matches RewireSignal::Rewired { count } ==> outcome == Ok::<u64, WatcherGoneError>(
            count,
        ),
        signal is Exited ==> outcome is Err,
{
}

} // verus!
