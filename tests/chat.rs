use my_server::disconnect::DisconnectGuard;
use my_server::session::{Action, Event, Phase, Session};
use my_server::state::AppState;
use my_server::text::{chat_message, host_of, joined_message, left_message};
use tokio::sync::broadcast::error::TryRecvError;

const BUSY: &str = "이미 접속중입니다!!";
const BLANK: &str = "공백은 사용 불가 !!! 새로고침 하세요.";
const TAKEN: &str = "누군가 같은 닉네임 사용 중 !!! 새로고침 하세요.";

fn text(s: &str) -> Event {
    Event::Text(s.to_string())
}

fn named(state: &mut AppState, peer: &str, name: &str) -> Session {
    let (mut s, acts) = Session::open(state, peer);
    assert!(acts.is_empty());
    let acts = s.step(state, text(name));
    assert_eq!(s.phase(), Phase::Relaying);
    assert_eq!(acts[0], Action::Subscribe);
    s
}

fn addr_taken(state: &mut AppState, ip: &str) -> bool {
    let mut taken = false;
    state.try_register_ip(ip, &mut taken);
    if !taken {
        state.unregister_ip(ip);
    }
    taken
}

fn name_taken(state: &mut AppState, name: &str) -> bool {
    let mut out = String::new();
    let ok = state.try_register_username(&mut out, name);
    if ok {
        state.unregister_username(name);
    }
    !ok
}

#[test]
fn host_is_text_before_port() {
    assert_eq!(host_of("10.0.0.1:5000"), "10.0.0.1");
    assert_eq!(host_of("localhost"), "localhost");
    assert_eq!(host_of(":80"), "");
    assert_eq!(host_of("[::1]:8080"), "[::1]");
}

#[test]
fn message_formats() {
    assert_eq!(joined_message("alice"), "alice joined.");
    assert_eq!(chat_message("alice", "hi"), "alice: hi");
    assert_eq!(left_message("alice"), "alice left.");
}

#[test]
fn only_first_address_claim_wins() {
    let mut st = AppState::new();
    let mut results = Vec::new();
    for _ in 0..5 {
        let mut taken = false;
        st.try_register_ip("10.0.0.1", &mut taken);
        results.push(!taken);
    }
    assert_eq!(results, vec![true, false, false, false, false]);
    st.unregister_ip("10.0.0.1");
    let mut taken = false;
    st.try_register_ip("10.0.0.1", &mut taken);
    assert!(!taken);
}

#[test]
fn username_claim_appends_name() {
    let mut st = AppState::new();
    let mut out = String::new();
    assert!(st.try_register_username(&mut out, "alice"));
    assert_eq!(out, "alice");
    let mut again = String::new();
    assert!(!st.try_register_username(&mut again, "alice"));
    assert_eq!(again, "");
}

#[test]
fn release_of_absent_key_is_no_op() {
    let mut st = AppState::new();
    let mut taken = false;
    st.try_register_ip("10.0.0.2", &mut taken);
    let mut out = String::new();
    st.try_register_username(&mut out, "bob");
    st.unregister_ip("10.0.0.9");
    st.unregister_ip("10.0.0.9");
    st.unregister_username("carol");
    assert!(addr_taken(&mut st, "10.0.0.2"));
    assert!(name_taken(&mut st, "bob"));
    assert!(!addr_taken(&mut st, "10.0.0.9"));
}

#[test]
fn guard_release_frees_address() {
    let mut st = AppState::new();
    let mut taken = false;
    st.try_register_ip("10.0.0.3", &mut taken);
    let g = DisconnectGuard::new("10.0.0.3".to_string());
    g.release(&mut st);
    assert!(!addr_taken(&mut st, "10.0.0.3"));
}

#[test]
fn publish_without_subscribers_is_dropped() {
    let st = AppState::new();
    assert_eq!(st.publish("nobody hears this".to_string()), 0);
    let mut rx = st.subscribe();
    assert_eq!(rx.try_recv(), Err(TryRecvError::Empty));
}

#[test]
fn publish_reaches_every_subscriber_once_in_order() {
    let st = AppState::new();
    let mut rxs = vec![st.subscribe(), st.subscribe(), st.subscribe()];
    assert_eq!(st.publish("one".to_string()), 3);
    assert_eq!(st.publish("two".to_string()), 3);
    for rx in rxs.iter_mut() {
        assert_eq!(rx.try_recv(), Ok("one".to_string()));
        assert_eq!(rx.try_recv(), Ok("two".to_string()));
        assert_eq!(rx.try_recv(), Err(TryRecvError::Empty));
    }
}

#[test]
fn late_subscriber_sees_only_later_messages() {
    let st = AppState::new();
    let mut early = st.subscribe();
    st.publish("before".to_string());
    let mut late = st.subscribe();
    st.publish("after".to_string());
    assert_eq!(early.try_recv(), Ok("before".to_string()));
    assert_eq!(late.try_recv(), Ok("after".to_string()));
    assert_eq!(late.try_recv(), Err(TryRecvError::Empty));
}

#[test]
fn name_is_trimmed_and_announced() {
    let mut st = AppState::new();
    let (mut s, _) = Session::open(&mut st, "10.0.0.1:4000");
    assert_eq!(s.ip(), "10.0.0.1");
    assert_eq!(s.phase(), Phase::AwaitingName);
    let acts = s.step(&mut st, text("  alice \n"));
    assert_eq!(s.name(), "alice");
    assert_eq!(acts, vec![Action::Subscribe, Action::Publish("alice joined.".to_string())]);
    assert!(name_taken(&mut st, "alice"));
}

#[test]
fn blank_name_is_rejected_and_address_freed() {
    let mut st = AppState::new();
    let (mut s, _) = Session::open(&mut st, "10.0.0.1:4000");
    let acts = s.step(&mut st, text("   "));
    assert_eq!(acts, vec![Action::Send(BLANK.to_string())]);
    assert!(s.is_closed());
    assert!(!addr_taken(&mut st, "10.0.0.1"));
    assert!(!name_taken(&mut st, ""));
}

#[test]
fn non_text_frames_are_ignored() {
    let mut st = AppState::new();
    let (mut s, _) = Session::open(&mut st, "10.0.0.1:4000");
    assert!(s.step(&mut st, Event::Other).is_empty());
    assert_eq!(s.phase(), Phase::AwaitingName);
    s.step(&mut st, text("alice"));
    assert!(s.step(&mut st, Event::Other).is_empty());
    assert_eq!(s.phase(), Phase::Relaying);
}

#[test]
fn stream_end_before_name_frees_address() {
    let mut st = AppState::new();
    let (mut s, _) = Session::open(&mut st, "10.0.0.1:4000");
    assert!(s.step(&mut st, Event::Ended).is_empty());
    assert!(s.is_closed());
    assert!(!addr_taken(&mut st, "10.0.0.1"));
}

#[test]
fn duplicate_name_is_rejected() {
    let mut st = AppState::new();
    let a = named(&mut st, "10.0.0.1:4000", "alice");
    let (mut b, acts) = Session::open(&mut st, "10.0.0.2:4001");
    assert!(acts.is_empty());
    let acts = b.step(&mut st, text("alice"));
    assert_eq!(acts, vec![Action::Send(TAKEN.to_string())]);
    assert!(b.is_closed());
    assert_eq!(a.phase(), Phase::Relaying);
    assert!(name_taken(&mut st, "alice"));
    assert!(addr_taken(&mut st, "10.0.0.1"));
    assert!(!addr_taken(&mut st, "10.0.0.2"));
}

#[test]
fn second_connection_from_same_address_is_refused() {
    let mut st = AppState::new();
    let a = named(&mut st, "10.0.0.1:4000", "alice");
    let (mut c, acts) = Session::open(&mut st, "10.0.0.1:4002");
    assert_eq!(acts, vec![Action::Send(BUSY.to_string())]);
    assert!(c.is_closed());
    assert!(c.close(&mut st).is_empty());
    assert_eq!(a.phase(), Phase::Relaying);
    let mut first = false;
    st.try_register_ip("10.0.0.1", &mut first);
    assert!(first);
    st.unregister_ip("10.0.0.1");
    assert!(!addr_taken(&mut st, "10.0.0.1"));
}

#[test]
fn relay_and_abrupt_disconnect() {
    let mut st = AppState::new();
    let mut a = named(&mut st, "10.0.0.1:4000", "alice");
    let _b = named(&mut st, "10.0.0.2:4001", "bob");
    let mut b_rx = st.subscribe();
    for act in a.step(&mut st, text("hi")) {
        if let Action::Publish(m) = act {
            st.publish(m);
        }
    }
    assert_eq!(b_rx.try_recv(), Ok("alice: hi".to_string()));
    for act in a.step(&mut st, Event::Ended) {
        if let Action::Publish(m) = act {
            st.publish(m);
        }
    }
    assert_eq!(b_rx.try_recv(), Ok("alice left.".to_string()));
    assert!(a.is_closed());
    assert!(!name_taken(&mut st, "alice"));
    assert!(!addr_taken(&mut st, "10.0.0.1"));
    assert!(name_taken(&mut st, "bob"));
    assert!(addr_taken(&mut st, "10.0.0.2"));
}

#[test]
fn teardown_twice_changes_nothing() {
    let mut st = AppState::new();
    let mut a = named(&mut st, "10.0.0.1:4000", "alice");
    assert_eq!(a.close(&mut st), vec![Action::Publish("alice left.".to_string())]);
    let _other = named(&mut st, "10.0.0.1:4003", "alice");
    assert!(a.close(&mut st).is_empty());
    assert!(name_taken(&mut st, "alice"));
    assert!(addr_taken(&mut st, "10.0.0.1"));
}
