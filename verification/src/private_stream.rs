//! Client-scoped health of one private execution stream.

use crate::binance_truth::{PrivateStreamHealth, PrivateStreamState, StreamHealthView};
use crate::identifiers::{ClientId, UnixNanos};
use vstd::prelude::*;

verus! {

/// Health of the private stream, as the client and its background tasks report it.
///
/// Every report names the connection generation that it is about. A report about a generation
/// that is no longer current changes nothing.
#[derive(Debug)]
pub struct PrivateStreamHealthHandle {
    health: PrivateStreamHealth,
}

impl View for PrivateStreamHealthHandle {
    type V = StreamHealthView;

    closed spec fn view(&self) -> StreamHealthView {
        self.health@
    }
}

impl StreamHealthView {
    /// Health before the first connection.
    pub open spec fn initial(client_id: Seq<char>) -> StreamHealthView {
        StreamHealthView {
            client_id,
            state: PrivateStreamState::Stale,
            generation: 0,
            authenticated: false,
            subscribed: false,
            last_heartbeat: None,
            detail: Some("not connected"@),
        }
    }

    /// The generation that the next connection gets.
    pub open spec fn next_generation(self) -> u64 {
        if self.generation == u64::MAX {
            u64::MAX
        } else {
            (self.generation + 1) as u64
        }
    }

    /// Health once a connection begins.
    pub open spec fn reconnecting(self) -> StreamHealthView {
        StreamHealthView {
            client_id: self.client_id,
            state: PrivateStreamState::Reconciling,
            generation: self.next_generation(),
            authenticated: false,
            subscribed: false,
            last_heartbeat: None,
            detail: Some("private stream generation changed"@),
        }
    }

    /// Health once the session of `generation` is authenticated.
    pub open spec fn with_authenticated(self, generation: u64) -> StreamHealthView {
        if self.generation == generation {
            StreamHealthView { authenticated: true, ..self }
        } else {
            self
        }
    }

    /// Health once the user data of `generation` is subscribed.
    pub open spec fn with_subscribed(self, generation: u64) -> StreamHealthView {
        if self.generation == generation {
            StreamHealthView { subscribed: true, ..self }
        } else {
            self
        }
    }

    /// Whether `generation` may be promoted to ready.
    pub open spec fn promotable(self, generation: u64) -> bool {
        &&& self.generation == generation
        &&& self.state == PrivateStreamState::Reconciling
        &&& self.authenticated
        &&& self.subscribed
    }

    /// Health after an attempt to promote `generation`.
    pub open spec fn promoted(self, generation: u64, now: UnixNanos) -> StreamHealthView {
        if self.promotable(generation) {
            StreamHealthView {
                state: PrivateStreamState::Ready,
                last_heartbeat: Some(now),
                detail: None,
                ..self
            }
        } else {
            self
        }
    }

    /// Health after a heartbeat of `generation`.
    pub open spec fn with_heartbeat(self, generation: u64, now: UnixNanos) -> StreamHealthView {
        if self.generation == generation {
            StreamHealthView { last_heartbeat: Some(now), ..self }
        } else {
            self
        }
    }

    /// Health once `generation` leaves service in `state`.
    pub open spec fn ended(
        self,
        generation: u64,
        state: PrivateStreamState,
        detail: Seq<char>,
    ) -> StreamHealthView {
        if self.generation == generation {
            StreamHealthView { state, detail: Some(detail), ..self }
        } else {
            self
        }
    }

    /// A stream is ready only with an authenticated and subscribed session that was heard of.
    /// There is nothing to explain exactly when it is ready, and no connection has begun while the
    /// generation is zero.
    pub open spec fn wf(self) -> bool {
        &&& self.state == PrivateStreamState::Ready ==> {
            &&& self.authenticated
            &&& self.subscribed
            &&& self.last_heartbeat is Some
        }
        &&& self.detail is None <==> self.state == PrivateStreamState::Ready
        &&& self.state == PrivateStreamState::Reconciling || self.state == PrivateStreamState::Ready
            ==> self.generation >= 1
    }

    /// Health after a report.
    pub open spec fn after(self, event: StreamEvent) -> StreamHealthView {
        match event {
            StreamEvent::Reconnect => self.reconnecting(),
            StreamEvent::Authenticated(generation) => self.with_authenticated(generation),
            StreamEvent::Subscribed(generation) => self.with_subscribed(generation),
            StreamEvent::Promote(generation, now) => self.promoted(generation, now),
            StreamEvent::Heartbeat(generation, now) => self.with_heartbeat(generation, now),
            StreamEvent::GoneStale(generation, detail) => self.ended(
                generation,
                PrivateStreamState::Stale,
                detail,
            ),
            StreamEvent::GoneDown(generation, detail) => self.ended(
                generation,
                PrivateStreamState::Failed,
                detail,
            ),
        }
    }

    /// Health after a history of reports.
    pub open spec fn after_all(self, events: Seq<StreamEvent>) -> StreamHealthView
        decreases events.len(),
    {
        if events.len() == 0 {
            self
        } else {
            self.after_all(events.drop_last()).after(events.last())
        }
    }

    /// Whether `generation` is past its only chance to be promoted.
    pub open spec fn is_past(self, generation: u64) -> bool {
        ||| self.generation > generation
        ||| self.generation == generation && self.state != PrivateStreamState::Reconciling
    }
}

/// A report about the stream.
pub enum StreamEvent {
    /// A connection begins.
    Reconnect,
    /// The session of a generation is authenticated.
    Authenticated(u64),
    /// The user data of a generation is subscribed.
    Subscribed(u64),
    /// A generation is to be promoted to ready.
    Promote(u64, UnixNanos),
    /// A generation was heard of.
    Heartbeat(u64, UnixNanos),
    /// A generation has gone stale.
    GoneStale(u64, Seq<char>),
    /// A generation has failed.
    GoneDown(u64, Seq<char>),
}

impl PrivateStreamHealthHandle {
    /// The health is one that reports can lead to.
    #[verifier::type_invariant]
    pub open spec fn valid(self) -> bool {
        self@.wf()
    }

    /// Health of a client that has not connected yet.
    pub fn new(client_id: ClientId) -> (handle: Self)
        ensures
            handle@ == StreamHealthView::initial(client_id@),
    {
        PrivateStreamHealthHandle {
            health: PrivateStreamHealth {
                client_id,
                state: PrivateStreamState::Stale,
                generation: 0,
                authenticated: false,
                subscribed: false,
                last_heartbeat: None,
                detail: Some("not connected".to_owned()),
            },
        }
    }

    /// Begins a connection and returns its generation.
    pub fn begin_reconnect(&mut self) -> (generation: u64)
        ensures
            final(self)@ == old(self)@.reconnecting(),
            generation == final(self)@.generation,
    {
        proof {
            use_type_invariant(&*self);
        }
        let generation: u64 = self.health.generation.saturating_add(1);
        self.health = PrivateStreamHealth {
            client_id: self.health.client_id.clone(),
            state: PrivateStreamState::Reconciling,
            generation,
            authenticated: false,
            subscribed: false,
            last_heartbeat: None,
            detail: Some("private stream generation changed".to_owned()),
        };
        generation
    }

    /// Records that the session of `generation` is authenticated.
    pub fn authenticated(&mut self, generation: u64)
        ensures
            final(self)@ == old(self)@.with_authenticated(generation),
    {
        proof {
            use_type_invariant(&*self);
        }
        if self.health.generation == generation {
            self.health.authenticated = true;
        }
    }

    /// Records that the user data of `generation` is subscribed.
    pub fn subscribed(&mut self, generation: u64)
        ensures
            final(self)@ == old(self)@.with_subscribed(generation),
    {
        proof {
            use_type_invariant(&*self);
        }
        if self.health.generation == generation {
            self.health.subscribed = true;
        }
    }

    /// Promotes `generation` to ready if it is the current one, reconciling, authenticated and
    /// subscribed, and says whether it did.
    pub fn ready(&mut self, generation: u64, now: UnixNanos) -> (promoted: bool)
        ensures
            promoted == old(self)@.promotable(generation),
            final(self)@ == old(self)@.promoted(generation, now),
    {
        proof {
            use_type_invariant(&*self);
        }
        if self.health.generation != generation || self.health.state
            != PrivateStreamState::Reconciling || !self.health.authenticated
            || !self.health.subscribed {
            return false;
        }
        self.health = PrivateStreamHealth {
            client_id: self.health.client_id.clone(),
            state: PrivateStreamState::Ready,
            generation,
            authenticated: true,
            subscribed: true,
            last_heartbeat: Some(now),
            detail: None,
        };
        true
    }

    /// Records a heartbeat of `generation`.
    pub fn heartbeat(&mut self, generation: u64, now: UnixNanos)
        ensures
            final(self)@ == old(self)@.with_heartbeat(generation, now),
    {
        proof {
            use_type_invariant(&*self);
        }
        if self.health.generation == generation {
            self.health.last_heartbeat = Some(now);
        }
    }

    fn end(&mut self, generation: u64, state: PrivateStreamState, detail: &str)
        requires
            state == PrivateStreamState::Stale || state == PrivateStreamState::Failed,
        ensures
            final(self)@ == old(self)@.ended(generation, state, detail@),
    {
        if self.health.generation != generation {
            return;
        }
        self.health = PrivateStreamHealth {
            client_id: self.health.client_id.clone(),
            state,
            generation,
            authenticated: self.health.authenticated,
            subscribed: self.health.subscribed,
            last_heartbeat: self.health.last_heartbeat,
            detail: Some(detail.to_owned()),
        };
    }

    /// Records that `generation` has gone stale.
    pub fn stale(&mut self, generation: u64, detail: &str)
        ensures
            final(self)@ == old(self)@.ended(generation, PrivateStreamState::Stale, detail@),
    {
        self.end(generation, PrivateStreamState::Stale, detail);
    }

    /// Records that `generation` has failed.
    pub fn fail(&mut self, generation: u64, detail: &str)
        ensures
            final(self)@ == old(self)@.ended(generation, PrivateStreamState::Failed, detail@),
    {
        self.end(generation, PrivateStreamState::Failed, detail);
    }

    /// The generation of the current connection.
    pub fn current_generation(&self) -> (generation: u64)
        ensures
            generation == self@.generation,
    {
        self.health.generation
    }

    /// A copy of the current health.
    pub fn snapshot(&self) -> (health: PrivateStreamHealth)
        ensures
            health@ == self@,
            health@.wf(),
    {
        proof {
            use_type_invariant(&*self);
        }
        self.health.clone()
    }
}

/// Whatever is reported of a stream from its beginning on, it is ready only with an authenticated
/// and subscribed session that was heard of, in a generation that a connection has begun, and it
/// lacks an explanation exactly when it is ready.
pub proof fn law_ready_means_live(client_id: Seq<char>, events: Seq<StreamEvent>)
    ensures
        ({
            let h = StreamHealthView::initial(client_id).after_all(events);
            &&& h.wf()
            &&& h.client_id == client_id
            &&& h.detail is None <==> h.state == PrivateStreamState::Ready
            &&& h.state == PrivateStreamState::Ready ==> {
                &&& h.authenticated
                &&& h.subscribed
                &&& h.last_heartbeat is Some
                &&& h.generation >= 1
            }
        }),
    decreases events.len(),
{
    if events.len() > 0 {
        law_ready_means_live(client_id, events.drop_last());
    }
}

/// A generation is promoted at most once, whatever is reported in between. The last generation
/// that can be counted is left out: a reconnection does not get past it.
pub proof fn law_generation_is_promoted_at_most_once(
    h: StreamHealthView,
    events: Seq<StreamEvent>,
    generation: u64,
    now: UnixNanos,
    i: int,
    j: int,
)
    requires
        generation < u64::MAX,
        0 <= i < j <= events.len(),
        events[i] == StreamEvent::Promote(generation, now),
        h.after_all(events.take(i)).promotable(generation),
    ensures
        h.after_all(events.take(j)).is_past(generation),
        !h.after_all(events.take(j)).promotable(generation),
    decreases j,
{
    assert(events.take(j).drop_last() =~= events.take(j - 1));
    if j > i + 1 {
        law_generation_is_promoted_at_most_once(h, events, generation, now, i, j - 1);
    }
}

/// A reconnection makes every report about an earlier generation void, promotion included.
pub proof fn law_reconnect_invalidates_earlier_generation(
    h: StreamHealthView,
    earlier: u64,
    now: UnixNanos,
    detail: Seq<char>,
    state: PrivateStreamState,
)
    requires
        h.generation < u64::MAX,
        earlier <= h.generation,
    ensures
        h.reconnecting().generation == h.generation + 1,
        !h.reconnecting().promotable(earlier),
        h.reconnecting().with_authenticated(earlier) == h.reconnecting(),
        h.reconnecting().with_subscribed(earlier) == h.reconnecting(),
        h.reconnecting().promoted(earlier, now) == h.reconnecting(),
        h.reconnecting().with_heartbeat(earlier, now) == h.reconnecting(),
        h.reconnecting().ended(earlier, state, detail) == h.reconnecting(),
{
}

/// A generation that failed or went stale is not promoted by anything but a reconnection.
pub proof fn law_ended_generation_cannot_be_promoted(
    h: StreamHealthView,
    generation: u64,
    state: PrivateStreamState,
    detail: Seq<char>,
    now: UnixNanos,
)
    requires
        h.generation == generation,
        state == PrivateStreamState::Failed || state == PrivateStreamState::Stale,
    ensures
        ({
            let ended = h.ended(generation, state, detail);
            &&& !ended.promotable(generation)
            &&& !ended.with_authenticated(generation).with_subscribed(generation).with_heartbeat(
                generation,
                now,
            ).promotable(generation)
            &&& ended.promoted(generation, now).state == state
        }),
{
}

/// A generation becomes ready once its session is authenticated and subscribed, in either order,
/// and not before.
pub proof fn law_promotion_needs_both_steps(h: StreamHealthView, generation: u64, now: UnixNanos)
    requires
        h.generation == generation,
        h.state == PrivateStreamState::Reconciling,
    ensures
        h.with_authenticated(generation).with_subscribed(generation).promotable(generation),
        h.with_subscribed(generation).with_authenticated(generation).promotable(generation),
        h.promoted(generation, now).state == PrivateStreamState::Ready <==> h.authenticated
            && h.subscribed,
{
}

} // verus!
