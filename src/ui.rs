//! What the rendering loop owns: the room id field, the settings, the event
//! channel and the connection. Each user action and each poll is one call.
use vstd::prelude::*;
use crate::channel::{paired, StateChannel};
use crate::config::Config;
use crate::fetch::{FetchRequest, StateEvent};
use crate::room::{decimal_text, is_room_text, parse_room_id, room_text, text_value, InputError};
use crate::state::{connect_next, disconnect_next, event_next, Connection, ConnView, State};

verus! {

pub struct App {
    /// Text of the room id field, as edited by the user.
    pub room_id: String,
    pub config: Config,
    pub state: StateChannel,
    pub conn: Connection,
}

impl App {
    /// Starts unconnected, with the field showing the configured room.
    pub fn new(config: Config) -> (r: App)
        ensures
            r.room_id@ == decimal_text(config.room_id as nat),
            r.config == config,
            r.conn@ == (ConnView {
                state: State::Unconnected,
                generation: 0,
                credentials: None,
                last_error: None,
            }),
            r.conn@.valid(),
            paired(r.state.tx, r.state.rx),
    {
        let room_id = room_text(config.room_id);
        App { room_id, config, state: StateChannel::new(), conn: Connection::new() }
    }

    /// The connect action. Text that does not name a room is rejected and
    /// nothing changes; otherwise the request goes to the connection, and
    /// the fetch it asks for, if any, is returned for the caller to start.
    pub fn connect(&mut self) -> (r: Result<Option<FetchRequest>, InputError>)
        requires
            is_room_text(old(self).room_id@) && old(self).conn@.state == State::Unconnected
                ==> old(self).conn@.can_advance(),
        ensures
            final(self).room_id == old(self).room_id,
            final(self).config == old(self).config,
            !is_room_text(old(self).room_id@) ==> r == Err::<Option<FetchRequest>, InputError>(
                InputError,
            ) && final(self).conn@ == old(self).conn@,
            is_room_text(old(self).room_id@) ==> exists|id: u64|
                id as nat == text_value(old(self).room_id@) && r == Ok::<
                    Option<FetchRequest>,
                    InputError,
                >(connect_next(old(self).conn@, id).1) && final(self).conn@ == connect_next(
                    old(self).conn@,
                    id,
                ).0,
            old(self).conn@.valid() ==> final(self).conn@.valid(),
    {
        match parse_room_id(self.room_id.as_str()) {
            Ok(id) => Ok(self.conn.connect(id)),
            Err(e) => Err(e),
        }
    }

    /// The disconnect action.
    pub fn disconnect(&mut self)
        requires
            old(self).conn@.state == State::Connecting ==> old(self).conn@.can_advance(),
        ensures
            final(self).room_id == old(self).room_id,
            final(self).config == old(self).config,
            final(self).conn@ == disconnect_next(old(self).conn@),
            old(self).conn@.valid() ==> final(self).conn@.valid(),
    {
        self.conn.disconnect();
    }

    /// Polls the channel once, without blocking, and applies the event it
    /// yielded, if any. Returns whether there was one.
    pub fn poll(&mut self) -> (r: bool)
        ensures
            final(self).room_id == old(self).room_id,
            final(self).config == old(self).config,
            !r ==> final(self).conn@ == old(self).conn@,
            r ==> exists|e: StateEvent| final(self).conn@ == event_next(old(self).conn@, e),
            old(self).conn@.valid() ==> final(self).conn@.valid(),
    {
        let ev = self.state.try_recv();
        let got = ev.is_some();
        self.conn.handle(ev);
        got
    }

    /// The settings to store after the room id field was edited: the
    /// current ones with the room the field names. Rejected when the text
    /// does not name a room.
    pub fn edited_config(&self) -> (r: Result<Config, InputError>)
        ensures
            r.is_ok() <==> is_room_text(self.room_id@),
            r.is_ok() ==> r.unwrap().room_id as nat == text_value(self.room_id@)
                && r.unwrap().dark_mode == self.config.dark_mode,
    {
        match parse_room_id(self.room_id.as_str()) {
            Ok(id) => Ok(Config { room_id: id, dark_mode: self.config.dark_mode }),
            Err(e) => Err(e),
        }
    }
}

} // verus!
