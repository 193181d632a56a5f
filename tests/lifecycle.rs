use danmu_core::channel::{ChannelClosed, StateChannel};
use danmu_core::config::Config;
use danmu_core::fetch::{DanmuInfo, FetchError, FetchRequest, HostList, StateEvent};
use danmu_core::room::{parse_room_id, room_text, InputError};
use danmu_core::state::{Connection, State};
use danmu_core::ui::App;

fn sample_info() -> DanmuInfo {
    DanmuInfo {
        token: String::from("tok"),
        host_list: vec![HostList {
            host: String::from("broadcastlv.chat.bilibili.com"),
            port: 2243,
            wss_port: 443,
            ws_port: 2244,
        }],
    }
}

#[test]
fn parse_valid_room_id() {
    assert_eq!(parse_room_id("4553086"), Ok(4553086));
}

#[test]
fn parse_invalid_room_id() {
    assert_eq!(parse_room_id("abc"), Err(InputError));
}

#[test]
fn parse_edge_texts() {
    assert_eq!(parse_room_id("+12"), Ok(12));
    assert_eq!(parse_room_id("0"), Err(InputError));
    assert_eq!(parse_room_id(""), Err(InputError));
    assert_eq!(parse_room_id("+"), Err(InputError));
    assert_eq!(parse_room_id(" 1"), Err(InputError));
    assert_eq!(parse_room_id("-1"), Err(InputError));
    assert_eq!(parse_room_id("18446744073709551615"), Ok(u64::MAX));
    assert_eq!(parse_room_id("18446744073709551616"), Err(InputError));
}

#[test]
fn room_text_is_decimal() {
    assert_eq!(room_text(4553086), "4553086");
    assert_eq!(room_text(7), "7");
    assert_eq!(parse_room_id(&room_text(90210)), Ok(90210));
}

#[test]
fn invalid_text_makes_no_transition() {
    let mut app = App::new(Config::new());
    app.room_id = String::from("abc");
    assert_eq!(app.connect(), Err(InputError));
    assert_eq!(app.conn.state(), State::Unconnected);
    assert_eq!(app.conn.generation(), 0);
}

#[test]
fn connect_from_unconnected_starts_fetch() {
    let mut c = Connection::new();
    let req = c.connect(4553086);
    assert_eq!(req, Some(FetchRequest { generation: 1, room_id: 4553086 }));
    assert_eq!(c.state(), State::Connecting);
    assert_eq!(c.generation(), 1);
}

#[test]
fn connect_while_busy_is_ignored() {
    let mut c = Connection::new();
    c.connect(1);
    assert_eq!(c.connect(2), None);
    assert_eq!(c.state(), State::Connecting);
    assert_eq!(c.generation(), 1);
    c.apply(StateEvent::Fetched(1, sample_info()));
    assert_eq!(c.connect(3), None);
    assert_eq!(c.state(), State::Connected);
    assert_eq!(c.generation(), 1);
}

#[test]
fn late_success_after_disconnect_is_discarded() {
    let mut c = Connection::new();
    let req = c.connect(4553086).unwrap();
    assert_eq!(req.generation, 1);
    c.disconnect();
    assert_eq!(c.generation(), 2);
    c.apply(StateEvent::Fetched(1, sample_info()));
    assert_eq!(c.state(), State::Unconnected);
    assert_eq!(c.credentials(), &None);
}

#[test]
fn stale_failure_is_discarded() {
    let mut c = Connection::new();
    c.connect(5);
    c.disconnect();
    c.connect(5);
    c.apply(StateEvent::Failed(1, FetchError::NetworkError));
    assert_eq!(c.state(), State::Connecting);
    assert_eq!(c.generation(), 3);
}

#[test]
fn current_success_connects() {
    let mut c = Connection::new();
    c.connect(5);
    c.apply(StateEvent::Fetched(1, sample_info()));
    assert_eq!(c.state(), State::Connected);
    assert_eq!(c.credentials(), &Some(sample_info()));
}

#[test]
fn current_failure_returns_to_unconnected() {
    let mut c = Connection::new();
    c.connect(5);
    c.apply(StateEvent::Failed(1, FetchError::DecodeError));
    assert_eq!(c.state(), State::Unconnected);
    assert_eq!(c.credentials(), &None);
    assert_eq!(c.generation(), 1);
    assert_eq!(c.last_error(), Some(FetchError::DecodeError));
    c.connect(5);
    assert_eq!(c.last_error(), None);
}

#[test]
fn hostless_credentials_are_a_failure() {
    let mut c = Connection::new();
    c.connect(5);
    c.apply(StateEvent::Fetched(1, DanmuInfo { token: String::from("t"), host_list: vec![] }));
    assert_eq!(c.state(), State::Unconnected);
    assert_eq!(c.credentials(), &None);
    assert_eq!(c.last_error(), Some(FetchError::EmptyResponse));
}

#[test]
fn stale_failure_leaves_no_error() {
    let mut c = Connection::new();
    c.connect(5);
    c.disconnect();
    c.apply(StateEvent::Failed(1, FetchError::NetworkError));
    assert_eq!(c.last_error(), None);
}

#[test]
fn own_channel_send_succeeds() {
    let app = App::new(Config::new());
    assert_eq!(app.state.send(StateEvent::Failed(9, FetchError::NetworkError)), Ok(()));
    assert_eq!(app.state.try_recv(), Some(StateEvent::Failed(9, FetchError::NetworkError)));
}

#[test]
fn disconnect_from_connected_drops_credentials() {
    let mut c = Connection::new();
    c.connect(5);
    c.apply(StateEvent::Fetched(1, sample_info()));
    c.disconnect();
    assert_eq!(c.state(), State::Unconnected);
    assert_eq!(c.credentials(), &None);
    assert_eq!(c.generation(), 1);
}

#[test]
fn disconnect_when_unconnected_changes_nothing() {
    let mut c = Connection::new();
    c.disconnect();
    assert_eq!(c.state(), State::Unconnected);
    assert_eq!(c.generation(), 0);
}

#[test]
fn empty_polls_change_nothing() {
    let mut app = App::new(Config::new());
    app.connect().unwrap();
    for _ in 0..100 {
        assert!(!app.poll());
    }
    assert_eq!(app.conn.state(), State::Connecting);
    assert_eq!(app.conn.generation(), 1);
    let mut c = Connection::new();
    c.handle(None);
    c.handle(None);
    assert_eq!(c.state(), State::Unconnected);
    assert_eq!(c.generation(), 0);
}

#[test]
fn poll_applies_sent_event() {
    let mut app = App::new(Config::new());
    let req = app.connect().unwrap().unwrap();
    assert_eq!(req, FetchRequest { generation: 1, room_id: 4553086 });
    let tx = app.state.tx.clone();
    tx.send(StateEvent::from_outcome(req.generation, Ok(sample_info()))).unwrap();
    assert!(app.poll());
    assert_eq!(app.conn.state(), State::Connected);
    assert!(!app.poll());
    app.disconnect();
    assert_eq!(app.conn.state(), State::Unconnected);
}

#[test]
fn channel_is_fifo() {
    let ch = StateChannel::new();
    assert_eq!(ch.try_recv(), None);
    assert_eq!(ch.send(StateEvent::Failed(1, FetchError::NetworkError)), Ok(()));
    assert_eq!(ch.send(StateEvent::Failed(2, FetchError::DecodeError)), Ok(()));
    assert_eq!(ch.try_recv(), Some(StateEvent::Failed(1, FetchError::NetworkError)));
    assert_eq!(ch.try_recv(), Some(StateEvent::Failed(2, FetchError::DecodeError)));
    assert_eq!(ch.try_recv(), None);
}

#[test]
fn send_without_receiver_fails() {
    let StateChannel { tx, rx } = StateChannel::new();
    drop(rx);
    let other = StateChannel::new();
    let ch = StateChannel { tx, rx: other.rx };
    assert_eq!(ch.send(StateEvent::Failed(1, FetchError::NetworkError)), Err(ChannelClosed));
}

#[test]
fn empty_host_list_is_empty_response() {
    let info = DanmuInfo { token: String::from("t"), host_list: vec![] };
    assert_eq!(info.clone().check(), Err(FetchError::EmptyResponse));
    assert_eq!(
        StateEvent::from_outcome(4, Ok(info)),
        StateEvent::Failed(4, FetchError::EmptyResponse)
    );
    assert_eq!(sample_info().check(), Ok(sample_info()));
    assert_eq!(
        StateEvent::from_outcome(4, Err(FetchError::NetworkError)),
        StateEvent::Failed(4, FetchError::NetworkError)
    );
    assert_eq!(StateEvent::from_outcome(4, Ok(sample_info())).generation(), 4);
}

#[test]
fn default_config_and_app() {
    let config = Config::new();
    assert_eq!(config, Config { room_id: 4553086, dark_mode: true });
    let mut app = App::new(config);
    assert_eq!(app.room_id, "4553086");
    app.room_id = String::from("42");
    assert_eq!(app.edited_config(), Ok(Config { room_id: 42, dark_mode: true }));
    app.room_id = String::from("x");
    assert_eq!(app.edited_config(), Err(InputError));
}
