//! The connection state machine. It is owned by one loop; results of
//! background fetches reach it only as generation-tagged events, and an
//! event from a superseded attempt never changes it.
use vstd::prelude::*;
use crate::fetch::{DanmuInfo, FetchError, FetchRequest, StateEvent};

verus! {

/// Lifecycle of the chat connection.
#[derive(Clone, Copy, Debug, PartialEq, Eq, Structural)]
pub enum State {
    Unconnected,
    Connecting,
    Connected,
}

/// Abstract value of a [`Connection`].
pub struct ConnView {
    pub state: State,
    /// Counter of attempts; an event is current only if it carries this value.
    pub generation: nat,
    pub credentials: Option<DanmuInfo>,
    /// Why the latest attempt failed, until the next one starts.
    pub last_error: Option<FetchError>,
}

impl ConnView {
    /// Usable credentials are held exactly while connected, and a failure is
    /// kept only while unconnected.
    pub open spec fn valid(self) -> bool {
        &&& self.credentials.is_some() <==> self.state == State::Connected
        &&& self.credentials.is_some() ==> self.credentials.unwrap().usable()
        &&& self.last_error.is_some() ==> self.state == State::Unconnected
    }

    /// Whether the counter can still be advanced in a `u64`.
    pub open spec fn can_advance(self) -> bool {
        self.generation < u64::MAX
    }
}

/// Next value and requested fetch after a connect request for `room_id`.
pub open spec fn connect_next(v: ConnView, room_id: u64) -> (ConnView, Option<FetchRequest>) {
    if v.state == State::Unconnected {
        (
            ConnView {
                state: State::Connecting,
                generation: v.generation + 1,
                credentials: None,
                last_error: None,
            },
            Some(FetchRequest { generation: (v.generation + 1) as u64, room_id }),
        )
    } else {
        (v, None)
    }
}

/// Next value after a disconnect request.
pub open spec fn disconnect_next(v: ConnView) -> ConnView {
    match v.state {
        State::Connecting => ConnView {
            state: State::Unconnected,
            generation: v.generation + 1,
            ..v
        },
        State::Connected => ConnView { state: State::Unconnected, credentials: None, ..v },
        State::Unconnected => v,
    }
}

/// Value after the current attempt failed with `e`.
pub open spec fn failed(v: ConnView, e: FetchError) -> ConnView {
    ConnView { state: State::Unconnected, credentials: None, last_error: Some(e), ..v }
}

/// Next value after an event arrives: only an event of the current
/// generation, while connecting, has an effect. Credentials that list no
/// host count as an empty response.
pub open spec fn event_next(v: ConnView, ev: StateEvent) -> ConnView {
    if ev.gen() == v.generation && v.state == State::Connecting {
        match ev {
            StateEvent::Fetched(_, info) => if info.usable() {
                ConnView { state: State::Connected, credentials: Some(info), ..v }
            } else {
                failed(v, FetchError::EmptyResponse)
            },
            StateEvent::Failed(_, e) => failed(v, e),
        }
    } else {
        v
    }
}

/// Next value after one poll of the channel, which may have yielded an event.
pub open spec fn poll_next(v: ConnView, ev: Option<StateEvent>) -> ConnView {
    match ev {
        Some(e) => event_next(v, e),
        None => v,
    }
}

/// The connection state, the attempt counter and the credentials of the
/// current session.
pub struct Connection {
    state: State,
    generation: u64,
    credentials: Option<DanmuInfo>,
    last_error: Option<FetchError>,
}

impl View for Connection {
    type V = ConnView;

    closed spec fn view(&self) -> ConnView {
        ConnView {
            state: self.state,
            generation: self.generation as nat,
            credentials: self.credentials,
            last_error: self.last_error,
        }
    }
}

impl Connection {
    /// Unconnected, at generation zero, with no credentials and no failure.
    pub fn new() -> (r: Connection)
        ensures
            r@ == (ConnView {
                state: State::Unconnected,
                generation: 0,
                credentials: None,
                last_error: None,
            }),
            r@.valid(),
    {
        Connection { state: State::Unconnected, generation: 0, credentials: None, last_error: None }
    }

    pub fn state(&self) -> (r: State)
        ensures
            r == self@.state,
    {
        self.state
    }

    pub fn generation(&self) -> (r: u64)
        ensures
            r as nat == self@.generation,
    {
        self.generation
    }

    pub fn credentials(&self) -> (r: &Option<DanmuInfo>)
        ensures
            *r == self@.credentials,
    {
        &self.credentials
    }

    /// Why the latest attempt failed, for the user to see.
    pub fn last_error(&self) -> (r: Option<FetchError>)
        ensures
            r == self@.last_error,
    {
        self.last_error
    }

    /// A connect request. From `Unconnected` it starts a new attempt and
    /// returns the fetch to run for it; otherwise it is ignored.
    pub fn connect(&mut self, room_id: u64) -> (r: Option<FetchRequest>)
        requires
            old(self)@.state == State::Unconnected ==> old(self)@.can_advance(),
        ensures
            (final(self)@, r) == connect_next(old(self)@, room_id),
            old(self)@.valid() ==> final(self)@.valid(),
    {
        if self.state == State::Unconnected {
            self.generation = self.generation + 1;
            self.state = State::Connecting;
            self.credentials = None;
            self.last_error = None;
            Some(FetchRequest { generation: self.generation, room_id })
        } else {
            None
        }
    }

    /// A disconnect request. While connecting it supersedes the attempt in
    /// flight; while connected it drops the credentials.
    pub fn disconnect(&mut self)
        requires
            old(self)@.state == State::Connecting ==> old(self)@.can_advance(),
        ensures
            final(self)@ == disconnect_next(old(self)@),
            old(self)@.valid() ==> final(self)@.valid(),
    {
        match self.state {
            State::Connecting => {
                self.generation = self.generation + 1;
                self.state = State::Unconnected;
            },
            State::Connected => {
                self.state = State::Unconnected;
                self.credentials = None;
            },
            State::Unconnected => {},
        }
    }

    /// Applies an event from a fetch task; a stale one is discarded.
    pub fn apply(&mut self, ev: StateEvent)
        ensures
            final(self)@ == event_next(old(self)@, ev),
            old(self)@.valid() ==> final(self)@.valid(),
    {
        let g = ev.generation();
        if g == self.generation && self.state == State::Connecting {
            match ev {
                StateEvent::Fetched(_, info) => {
                    if info.host_list.len() > 0 {
                        self.state = State::Connected;
                        self.credentials = Some(info);
                    } else {
                        self.state = State::Unconnected;
                        self.credentials = None;
                        self.last_error = Some(FetchError::EmptyResponse);
                    }
                },
                StateEvent::Failed(_, e) => {
                    self.state = State::Unconnected;
                    self.credentials = None;
                    self.last_error = Some(e);
                },
            }
        }
    }

    /// Applies what one poll of the channel yielded, if anything.
    pub fn handle(&mut self, ev: Option<StateEvent>)
        ensures
            final(self)@ == poll_next(old(self)@, ev),
            old(self)@.valid() ==> final(self)@.valid(),
    {
        match ev {
            Some(e) => self.apply(e),
            None => {},
        }
    }
}

} // verus!
