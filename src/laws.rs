//! Properties of the connection lifecycle, stated over the abstract
//! transitions that the executable operations are proved to follow.
use vstd::prelude::*;
use crate::fetch::{DanmuInfo, FetchError, FetchRequest, StateEvent};
use crate::room::{
    all_digits, decimal_text, digit_char, digit_value, digits_value, is_room_text,
    text_value, unsigned_digits,
};
use crate::state::{connect_next, disconnect_next, event_next, poll_next, ConnView, State};

verus! {

/// A connect from `Unconnected` moves to `Connecting` at once, under a new
/// generation, and asks for exactly one fetch, tagged with that generation.
pub proof fn connect_starts_attempt(v: ConnView, room_id: u64)
    requires
        v.valid(),
        v.state == State::Unconnected,
        v.can_advance(),
    ensures
        connect_next(v, room_id).0.state == State::Connecting,
        connect_next(v, room_id).0.generation == v.generation + 1,
        connect_next(v, room_id).0.valid(),
        connect_next(v, room_id).1 == Some(
            FetchRequest { generation: (v.generation + 1) as u64, room_id },
        ),
        connect_next(v, room_id).1.unwrap().generation as nat == connect_next(v, room_id).0.generation,
{
}

/// A connect while `Connecting` or `Connected` changes nothing and asks for
/// no fetch.
pub proof fn connect_when_busy_is_ignored(v: ConnView, room_id: u64)
    requires
        v.state == State::Connecting || v.state == State::Connected,
    ensures
        connect_next(v, room_id) == (v, None::<FetchRequest>),
{
}

/// An event whose generation is not the current one changes nothing,
/// whatever outcome it carries.
pub proof fn stale_event_is_discarded(v: ConnView, ev: StateEvent)
    requires
        ev.gen() != v.generation,
    ensures
        event_next(v, ev) == v,
        poll_next(v, Some(ev)) == v,
{
}

/// A result that arrives after the attempt it reports on was abandoned by a
/// disconnect never brings the connection back.
pub proof fn late_result_after_disconnect(v: ConnView, room_id: u64, info: DanmuInfo)
    requires
        v.valid(),
        v.state == State::Unconnected,
        v.generation + 2 <= u64::MAX,
    ensures
        ({
            let (w, req) = connect_next(v, room_id);
            let u = disconnect_next(w);
            &&& u.state == State::Unconnected
            &&& event_next(u, StateEvent::Fetched(req.unwrap().generation, info)) == u
        }),
{
}

/// A successful fetch of the current attempt while `Connecting` connects and
/// keeps its credentials.
pub proof fn current_success_connects(v: ConnView, g: u64, info: DanmuInfo)
    requires
        v.state == State::Connecting,
        g as nat == v.generation,
        info.usable(),
    ensures
        event_next(v, StateEvent::Fetched(g, info)).state == State::Connected,
        event_next(v, StateEvent::Fetched(g, info)).credentials == Some(info),
        event_next(v, StateEvent::Fetched(g, info)).generation == v.generation,
{
}

/// A failed fetch of the current attempt while `Connecting` returns to
/// `Unconnected`, keeps no credentials and keeps the failure for the user.
pub proof fn current_failure_disconnects(v: ConnView, g: u64, e: FetchError)
    requires
        v.state == State::Connecting,
        g as nat == v.generation,
    ensures
        event_next(v, StateEvent::Failed(g, e)).state == State::Unconnected,
        event_next(v, StateEvent::Failed(g, e)).credentials == None::<DanmuInfo>,
        event_next(v, StateEvent::Failed(g, e)).last_error == Some(e),
{
}

/// Credentials of the current attempt that list no host are a failure: the
/// connection returns to `Unconnected` with an empty response.
pub proof fn current_hostless_success_fails(v: ConnView, g: u64, info: DanmuInfo)
    requires
        v.state == State::Connecting,
        g as nat == v.generation,
        !info.usable(),
    ensures
        event_next(v, StateEvent::Fetched(g, info)).state == State::Unconnected,
        event_next(v, StateEvent::Fetched(g, info)).credentials == None::<DanmuInfo>,
        event_next(v, StateEvent::Fetched(g, info)).last_error == Some(FetchError::EmptyResponse),
{
}

/// A disconnect from `Connected` returns to `Unconnected` and drops the
/// credentials.
pub proof fn disconnect_drops_credentials(v: ConnView)
    requires
        v.state == State::Connected,
    ensures
        disconnect_next(v).state == State::Unconnected,
        disconnect_next(v).credentials == None::<DanmuInfo>,
{
}

/// The connection after `k` polls that found the channel empty.
pub open spec fn empty_polls(v: ConnView, k: nat) -> ConnView
    decreases k,
{
    if k == 0 {
        v
    } else {
        poll_next(empty_polls(v, (k - 1) as nat), None)
    }
}

/// Polling an empty channel any number of times changes nothing.
pub proof fn empty_polls_change_nothing(v: ConnView, k: nat)
    ensures
        empty_polls(v, k) == v,
    decreases k,
{
    if k > 0 {
        empty_polls_change_nothing(v, (k - 1) as nat);
    }
}

proof fn decimal_text_digits(n: nat)
    ensures
        decimal_text(n).len() > 0,
        all_digits(decimal_text(n)),
        digits_value(decimal_text(n)) == n,
        decimal_text(n)[0] != '+',
    decreases n,
{
    let s = decimal_text(n);
    if n < 10 {
        assert(s.drop_last() =~= Seq::<char>::empty());
        assert(digit_value(digit_char(n)) == n);
        assert(digits_value(s) == digits_value(s.drop_last()) * 10 + digit_value(s.last()));
    } else {
        let p = decimal_text(n / 10);
        decimal_text_digits(n / 10);
        assert(s.drop_last() =~= p);
        assert(digit_value(digit_char(n % 10)) == n % 10);
        assert(s.last() == digit_char(n % 10));
        assert(digits_value(s) == digits_value(p) * 10 + digit_value(s.last()));
        vstd::arithmetic::div_mod::lemma_fundamental_div_mod(n as int, 10);
        assert(s[0] == p[0]);
        assert forall|i: int| 0 <= i < s.len() implies '0' <= #[trigger] s[i] && s[i] <= '9' by {
            if i < p.len() {
                assert(s[i] == p[i]);
            }
        }
    }
}

/// The text that shows a positive room id parses back to that room id.
pub proof fn room_text_round_trip(room_id: u64)
    requires
        room_id > 0,
    ensures
        is_room_text(decimal_text(room_id as nat)),
        text_value(decimal_text(room_id as nat)) == room_id as nat,
{
    decimal_text_digits(room_id as nat);
    let s = decimal_text(room_id as nat);
    assert(unsigned_digits(s) == s);
}

} // verus!
