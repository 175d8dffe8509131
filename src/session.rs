use crate::disconnect::DisconnectGuard;
use crate::state::AppState;
use crate::text::{
    chat_message, chat_text, host_of, is_host_of, joined_message, joined_text, left_message,
    left_text, trim_text, trimmed,
};
use vstd::prelude::*;

verus! {

/// Where a connection stands in its life.
#[derive(Clone, Copy, PartialEq, Eq, Structural, Debug)]
pub enum Phase {
    /// The address is registered; the client's first text is its name.
    AwaitingName,
    /// Named and subscribed: chat text flows both ways.
    Relaying,
    /// Ended; everything the connection held is released.
    Closed,
}

/// What the client's stream yielded, or that a relay loop stopped.
#[derive(Clone, Debug, PartialEq, Eq)]
pub enum Event {
    /// A text frame.
    Text(String),
    /// A frame that is not text.
    Other,
    /// The stream ended or failed, or a relay loop stopped.
    Ended,
}

/// Work for the connection's driver, in the order given.
#[derive(Clone, Debug, PartialEq, Eq)]
pub enum Action {
    /// Send this text frame to the client.
    Send(String),
    /// Subscribe this connection to the broadcast point and start relaying.
    Subscribe,
    /// Publish this text to every subscriber.
    Publish(String),
}

/// What an `Action` asks for, over plain sequences.
pub enum Effect {
    Send(Seq<char>),
    Subscribe,
    Publish(Seq<char>),
}

impl View for Action {
    type V = Effect;

    open spec fn view(&self) -> Effect {
        match self {
            Action::Send(s) => Effect::Send(s@),
            Action::Subscribe => Effect::Subscribe,
            Action::Publish(s) => Effect::Publish(s@),
        }
    }
}

/// The effects of a list of actions.
pub open spec fn effects(v: Seq<Action>) -> Seq<Effect> {
    v.map_values(|a: Action| a@)
}

/// Notice to a client whose address already has a live connection.
pub open spec fn busy_notice() -> Seq<char> {
    "이미 접속중입니다!!"@
}

/// Notice to a client whose name is blank.
pub open spec fn empty_name_notice() -> Seq<char> {
    "공백은 사용 불가 !!! 새로고침 하세요."@
}

/// Notice to a client whose name is in use.
pub open spec fn name_taken_notice() -> Seq<char> {
    "누군가 같은 닉네임 사용 중 !!! 새로고침 하세요."@
}

fn send_busy() -> (r: Action)
    ensures
        r@ == Effect::Send(busy_notice()),
{
    Action::Send("이미 접속중입니다!!".to_owned())
}

fn send_empty_name() -> (r: Action)
    ensures
        r@ == Effect::Send(empty_name_notice()),
{
    Action::Send("공백은 사용 불가 !!! 새로고침 하세요.".to_owned())
}

fn send_name_taken() -> (r: Action)
    ensures
        r@ == Effect::Send(name_taken_notice()),
{
    Action::Send("누군가 같은 닉네임 사용 중 !!! 새로고침 하세요.".to_owned())
}

/// What handing the name `name` to a session awaiting one does: a blank
/// name or one in use ends the session with a notice and releases its
/// address; any other name is registered and the session starts relaying.
pub open spec fn name_submitted(
    s0: Session,
    st0: AppState,
    name: Seq<char>,
    s1: Session,
    st1: AppState,
    out: Seq<Effect>,
) -> bool {
    &&& s1.wf()
    &&& st1.wf()
    &&& s1.ip_of() == s0.ip_of()
    &&& if name.len() == 0 || st0.names().contains(name) {
        &&& s1.phase_of() == Phase::Closed
        &&& s1.name_of() == s0.name_of()
        &&& st1.names() == st0.names()
        &&& st1.addrs() == st0.addrs().remove(s0.ip_of())
        &&& out == seq![
            Effect::Send(if name.len() == 0 { empty_name_notice() } else { name_taken_notice() }),
        ]
    } else {
        &&& s1.phase_of() == Phase::Relaying
        &&& s1.name_of() == name
        &&& st1.names() == st0.names().insert(name)
        &&& st1.addrs() == st0.addrs()
        &&& out == seq![Effect::Subscribe, Effect::Publish(joined_text(name))]
    }
}

/// What tearing a session down does: a relaying session announces that it
/// left and releases its name; a live session releases its address; an
/// ended session changes nothing.
pub open spec fn torn_down(
    s0: Session,
    st0: AppState,
    s1: Session,
    st1: AppState,
    out: Seq<Effect>,
) -> bool {
    &&& s1.wf()
    &&& st1.wf()
    &&& if s0.phase_of() == Phase::Closed {
        s1 == s0 && st1 == st0 && out == Seq::<Effect>::empty()
    } else {
        &&& s1.phase_of() == Phase::Closed
        &&& s1.ip_of() == s0.ip_of()
        &&& s1.name_of() == s0.name_of()
        &&& st1.addrs() == st0.addrs().remove(s0.ip_of())
        &&& if s0.phase_of() == Phase::Relaying {
            &&& st1.names() == st0.names().remove(s0.name_of())
            &&& out == seq![Effect::Publish(left_text(s0.name_of()))]
        } else {
            &&& st1.names() == st0.names()
            &&& out == Seq::<Effect>::empty()
        }
    }
}

/// After a live session is torn down, cleanly or not, neither its address
/// nor its name is registered, no other name or address was touched, and a
/// second teardown changes nothing.
pub proof fn lemma_teardown_releases(s0: Session, st0: AppState, s1: Session, st1: AppState, out: Seq<Effect>)
    requires
        s0.wf(),
        s0.phase_of() != Phase::Closed,
        torn_down(s0, st0, s1, st1, out),
    ensures
        !st1.addrs().contains(s0.ip_of()),
        s0.phase_of() == Phase::Relaying ==> !st1.names().contains(s0.name_of()),
        s0.phase_of() == Phase::AwaitingName ==> st1.names() == st0.names(),
        forall|b: Seq<char>| b != s0.ip_of() ==> st1.addrs().contains(b) == st0.addrs().contains(b),
        forall|b: Seq<char>| b != s0.name_of() ==> st1.names().contains(b) == st0.names().contains(b),
        forall|s2: Session, st2: AppState, out2: Seq<Effect>|
            #[trigger] torn_down(s1, st1, s2, st2, out2) ==> s2 == s1 && st2 == st1 && out2.len() == 0,
{
}

/// One client connection, from the address check to teardown.
pub struct Session {
    phase: Phase,
    ip: String,
    name: String,
    guard: Option<DisconnectGuard>,
}

impl Session {
    pub closed spec fn phase_of(&self) -> Phase {
        self.phase
    }

    /// The connection's address (its host, without port).
    pub closed spec fn ip_of(&self) -> Seq<char> {
        self.ip@
    }

    /// The registered display name; empty until registration.
    pub closed spec fn name_of(&self) -> Seq<char> {
        self.name@
    }

    /// A live connection holds exactly one guard for its own address; an
    /// ended one holds none.
    pub closed spec fn wf(&self) -> bool {
        &&& match self.guard {
            Some(g) => self.phase != Phase::Closed && g.ip_of() == self.ip@,
            None => self.phase == Phase::Closed,
        }
        &&& self.phase == Phase::AwaitingName ==> self.name@.len() == 0
    }

    pub fn phase(&self) -> (r: Phase)
        ensures
            r == self.phase_of(),
    {
        self.phase
    }

    pub fn is_closed(&self) -> (r: bool)
        ensures
            r == (self.phase_of() == Phase::Closed),
    {
        self.phase == Phase::Closed
    }

    pub fn ip(&self) -> (r: &str)
        ensures
            r@ == self.ip_of(),
    {
        self.ip.as_str()
    }

    pub fn name(&self) -> (r: &str)
        ensures
            r@ == self.name_of(),
    {
        self.name.as_str()
    }

    /// Accepts a connection from `peer` (`host:port`). Its host is claimed
    /// in the registry; if another connection holds it, the client gets the
    /// busy notice and the session ends at once, holding nothing.
    pub fn open(state: &mut AppState, peer: &str) -> (r: (Session, Vec<Action>))
        requires
            old(state).wf(),
        ensures
            final(state).wf(),
            r.0.wf(),
            is_host_of(r.0.ip_of(), peer@),
            r.0.name_of().len() == 0,
            final(state).addrs() == old(state).addrs().insert(r.0.ip_of()),
            final(state).names() == old(state).names(),
            if old(state).addrs().contains(r.0.ip_of()) {
                &&& r.0.phase_of() == Phase::Closed
                &&& effects(r.1@) == seq![Effect::Send(busy_notice())]
            } else {
                &&& r.0.phase_of() == Phase::AwaitingName
                &&& effects(r.1@) == Seq::<Effect>::empty()
            },
    {
        let ip = host_of(peer);
        let mut is_already_contained = false;
        state.try_register_ip(ip.as_str(), &mut is_already_contained);
        let mut actions: Vec<Action> = Vec::new();
        if is_already_contained {
            actions.push(send_busy());
            assert(effects(actions@) =~= seq![Effect::Send(busy_notice())]);
            (Session { phase: Phase::Closed, ip, name: String::new(), guard: None }, actions)
        } else {
            let guard = DisconnectGuard::new(ip.clone());
            assert(effects(actions@) =~= Seq::<Effect>::empty());
            (Session { phase: Phase::AwaitingName, ip, name: String::new(), guard: Some(guard) }, actions)
        }
    }
    /// Hands the session the client's name, already trimmed.
    pub fn submit_name(&mut self, state: &mut AppState, name: &str) -> (r: Vec<Action>)
        requires
            old(self).wf(),
            old(self).phase_of() == Phase::AwaitingName,
            old(state).wf(),
        ensures
            name_submitted(*old(self), *old(state), name@, *final(self), *final(state), effects(r@)),
    {
        let ghost names0 = state.names();
        let mut actions: Vec<Action> = Vec::new();
        let blank = name.unicode_len() == 0;
        let mut registered = false;
        if !blank {
            let mut chosen = String::new();
            registered = state.try_register_username(&mut chosen, name);
            if registered {
                assert(chosen@ =~= name@);
                self.name = chosen;
            }
        }
        if registered {
            self.phase = Phase::Relaying;
            actions.push(Action::Subscribe);
            actions.push(Action::Publish(joined_message(name)));
            assert(effects(actions@) =~= seq![Effect::Subscribe, Effect::Publish(joined_text(name@))]);
        } else {
            assert(!blank ==> names0.insert(name@) =~= names0);
            self.release_address(state);
            if blank {
                actions.push(send_empty_name());
            } else {
                actions.push(send_name_taken());
            }
            assert(effects(actions@) =~= seq![
                Effect::Send(if name@.len() == 0 { empty_name_notice() } else { name_taken_notice() }),
            ]);
        }
        actions
    }

    /// Ends a live session: gives its address back and marks it ended.
    fn release_address(&mut self, state: &mut AppState)
        requires
            old(self).wf(),
            old(self).phase_of() != Phase::Closed,
            old(state).wf(),
        ensures
            final(self).wf(),
            final(self).phase_of() == Phase::Closed,
            final(self).ip_of() == old(self).ip_of(),
            final(self).name_of() == old(self).name_of(),
            final(state).wf(),
            final(state).addrs() == old(state).addrs().remove(old(self).ip_of()),
            final(state).names() == old(state).names(),
    {
        let guard = self.guard.take();
        match guard {
            Some(g) => g.release(state),
            None => {},
        }
        self.phase = Phase::Closed;
    }

    /// Tears the session down, whichever way the connection ended. Safe to
    /// call again: an ended session is left as it is.
    pub fn close(&mut self, state: &mut AppState) -> (r: Vec<Action>)
        requires
            old(self).wf(),
            old(state).wf(),
        ensures
            torn_down(*old(self), *old(state), *final(self), *final(state), effects(r@)),
    {
        let mut actions: Vec<Action> = Vec::new();
        if self.phase == Phase::Relaying {
            actions.push(Action::Publish(left_message(self.name.as_str())));
            state.unregister_username(self.name.as_str());
            self.release_address(state);
            assert(effects(actions@) =~= seq![Effect::Publish(left_text(old(self).name_of()))]);
        } else if self.phase == Phase::AwaitingName {
            self.release_address(state);
            assert(effects(actions@) =~= Seq::<Effect>::empty());
        } else {
            assert(effects(actions@) =~= Seq::<Effect>::empty());
        }
        actions
    }
    /// Moves the session on by one event of its connection: a text frame is
    /// the name while one is awaited, and a chat line while relaying; other
    /// frames change nothing; the end of the stream tears the session down.
    pub fn step(&mut self, state: &mut AppState, ev: Event) -> (r: Vec<Action>)
        requires
            old(self).wf(),
            old(state).wf(),
        ensures
            match ev {
                Event::Text(t) => match old(self).phase_of() {
                    Phase::AwaitingName => name_submitted(
                        *old(self),
                        *old(state),
                        trimmed(t@),
                        *final(self),
                        *final(state),
                        effects(r@),
                    ),
                    Phase::Relaying => {
                        &&& *final(self) == *old(self)
                        &&& *final(state) == *old(state)
                        &&& effects(r@) == seq![Effect::Publish(chat_text(old(self).name_of(), t@))]
                    },
                    Phase::Closed => {
                        &&& *final(self) == *old(self)
                        &&& *final(state) == *old(state)
                        &&& effects(r@) == Seq::<Effect>::empty()
                    },
                },
                Event::Other => {
                    &&& *final(self) == *old(self)
                    &&& *final(state) == *old(state)
                    &&& effects(r@) == Seq::<Effect>::empty()
                },
                Event::Ended => torn_down(*old(self), *old(state), *final(self), *final(state), effects(r@)),
            },
    {
        match ev {
            Event::Text(t) => {
                if self.phase == Phase::AwaitingName {
                    let name = trim_text(t.as_str());
                    self.submit_name(state, name)
                } else if self.phase == Phase::Relaying {
                    let mut actions: Vec<Action> = Vec::new();
                    actions.push(Action::Publish(chat_message(self.name.as_str(), t.as_str())));
                    assert(effects(actions@) =~= seq![Effect::Publish(chat_text(self.name@, t@))]);
                    actions
                } else {
                    let actions: Vec<Action> = Vec::new();
                    assert(effects(actions@) =~= Seq::<Effect>::empty());
                    actions
                }
            },
            Event::Other => {
                let actions: Vec<Action> = Vec::new();
                assert(effects(actions@) =~= Seq::<Effect>::empty());
                actions
            },
            Event::Ended => self.close(state),
        }
    }
}

} // verus!
