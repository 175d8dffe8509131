use tokio::sync::broadcast::{Receiver, Sender};
use vstd::prelude::*;

verus! {

/// The set of strings that a vector of strings holds.
pub open spec fn keys(v: Seq<String>) -> Set<Seq<char>> {
    Set::new(|k: Seq<char>| exists|i: int| 0 <= i < v.len() && v[i]@ == k)
}

/// No string occurs twice in the vector.
pub open spec fn distinct(v: Seq<String>) -> bool {
    forall|i: int, j: int| 0 <= i < j < v.len() ==> v[i]@ != v[j]@
}

/// Position of `k` in `v`, if it is there.
fn position(v: &Vec<String>, k: &str) -> (r: Option<usize>)
    ensures
        match r {
            Some(i) => i < v@.len() && v@[i as int]@ == k@,
            None => !keys(v@).contains(k@),
        },
{
    let key = k.to_owned();
    let mut i: usize = 0;
    while i < v.len()
        invariant
            i <= v@.len(),
            key@ == k@,
            forall|j: int| 0 <= j < i ==> v@[j]@ != k@,
        decreases v@.len() - i,
    {
        if v[i] == key {
            return Some(i);
        }
        i = i + 1;
    }
    None
}


#[verifier::external_type_specification]
#[verifier::external_body]
#[verifier::reject_recursive_types(T)]
pub struct ExSender<T>(Sender<T>);

#[verifier::external_type_specification]
#[verifier::external_body]
#[verifier::reject_recursive_types(T)]
pub struct ExReceiver<T>(Receiver<T>);

/// How many messages each subscriber's queue holds before it lags.
pub const CHANNEL_CAPACITY: usize = 100;

/// Adds `k` to a vector without duplicates, unless it is there already;
/// tells whether it was added.
fn insert_key(v: &mut Vec<String>, k: &str) -> (r: bool)
    requires
        distinct(old(v)@),
    ensures
        distinct(final(v)@),
        r == !keys(old(v)@).contains(k@),
        keys(final(v)@) == keys(old(v)@).insert(k@),
{
    match position(v, k) {
        Some(_) => {
            assert(keys(old(v)@).insert(k@) =~= keys(old(v)@));
            false
        },
        None => {
            let ghost before = v@;
            v.push(k.to_owned());
            assert(v@[before.len() as int]@ == k@);
            assert(keys(v@) =~= keys(before).insert(k@)) by {
                assert forall|x: Seq<char>| keys(v@).contains(x) implies keys(before).insert(x).contains(x) by {
                }
                assert forall|x: Seq<char>| #[trigger] keys(before).insert(k@).contains(x) implies keys(v@).contains(x) by {
                    if x != k@ {
                        let i = choose|i: int| 0 <= i < before.len() && before[i]@ == x;
                        assert(v@[i] == before[i]);
                    }
                }
            }
            true
        },
    }
}

/// Takes `k` out of a vector without duplicates; absent, nothing changes.
fn remove_key(v: &mut Vec<String>, k: &str)
    requires
        distinct(old(v)@),
    ensures
        distinct(final(v)@),
        keys(final(v)@) == keys(old(v)@).remove(k@),
{
    match position(v, k) {
        Some(i) => {
            let ghost before = v@;
            v.remove(i);
            assert(forall|j: int| 0 <= j < v@.len() ==> #[trigger] v@[j] == before[if j < i { j } else { j + 1 }]);
            assert(keys(v@) =~= keys(before).remove(k@)) by {
                assert forall|x: Seq<char>| #[trigger] keys(v@).contains(x) implies keys(before).remove(k@).contains(x) by {
                    let j = choose|j: int| 0 <= j < v@.len() && v@[j]@ == x;
                    if j < i {
                        assert(before[j]@ == x);
                    } else {
                        assert(before[j + 1]@ == x);
                    }
                }
                assert forall|x: Seq<char>| #[trigger] keys(before).remove(k@).contains(x) implies keys(v@).contains(x) by {
                    let j = choose|j: int| 0 <= j < before.len() && before[j]@ == x;
                    if j < i {
                        assert(v@[j]@ == x);
                    } else {
                        assert(v@[j - 1]@ == x);
                    }
                }
            }
        },
        None => {
            assert(keys(old(v)@).remove(k@) =~= keys(old(v)@));
        },
    }
}

/// What `n` successive claims of address `a` report, starting from the
/// address set `s`: `true` for each claim that succeeds. A claim adds `a`.
pub open spec fn claim_outcomes(s: Set<Seq<char>>, a: Seq<char>, n: nat) -> Seq<bool>
    decreases n,
{
    if n == 0 {
        Seq::empty()
    } else {
        seq![!s.contains(a)] + claim_outcomes(s.insert(a), a, (n - 1) as nat)
    }
}

/// Of any run of claims of one address, serialised by the registry's lock,
/// exactly one succeeds when the address was free (the first), none when
/// it was taken; once the address is released, the next claim succeeds.
pub proof fn lemma_one_claim_wins(s: Set<Seq<char>>, a: Seq<char>, n: nat)
    ensures
        claim_outcomes(s, a, n).len() == n,
        forall|i: int| 0 <= i < n ==> claim_outcomes(s, a, n)[i] == (i == 0 && !s.contains(a)),
        n > 0 ==> claim_outcomes(s.insert(a).remove(a), a, n)[0],
    decreases n,
{
    if n > 0 {
        lemma_one_claim_wins(s.insert(a), a, (n - 1) as nat);
        let rest = claim_outcomes(s.insert(a), a, (n - 1) as nat);
        assert(claim_outcomes(s, a, n) == seq![!s.contains(a)] + rest);
        assert forall|i: int| 0 <= i < n implies claim_outcomes(s, a, n)[i] == (i == 0 && !s.contains(a)) by {
            if i > 0 {
                assert(claim_outcomes(s, a, n)[i] == rest[i - 1]);
            }
        }
        assert(!s.insert(a).remove(a).contains(a));
    }
}

/// Releasing a name or an address that is absent leaves the set as it was;
/// releasing any key leaves every other key as it was.
pub proof fn lemma_release_idempotent(s: Set<Seq<char>>, a: Seq<char>)
    ensures
        !s.contains(a) ==> s.remove(a) == s,
        s.remove(a).remove(a) == s.remove(a),
        forall|b: Seq<char>| b != a ==> s.remove(a).contains(b) == s.contains(b),
{
    if !s.contains(a) {
        assert(s.remove(a) =~= s);
    }
    assert(s.remove(a).remove(a) =~= s.remove(a));
}

/// Relies on tokio's `broadcast::Sender::new`: a sending point with no
/// receiver yet; it panics on a capacity of zero or above `usize::MAX >> 1`.
#[verifier::external_body]
fn new_sender(capacity: usize) -> (r: Sender<String>)
    requires
        0 < capacity <= usize::MAX / 2,
{
    Sender::new(capacity)
}

/// Relies on tokio's `broadcast::Sender::send`: `Ok` carries the number of
/// receivers, which is never zero; with no receiver the message comes back
/// unchanged in the error.
#[verifier::external_body]
fn send_message(tx: &Sender<String>, msg: String) -> (r: Result<usize, String>)
    ensures
        match r {
            Ok(n) => n > 0,
            Err(back) => back@ == msg@,
        },
{
    match tx.send(msg) {
        Ok(n) => Ok(n),
        Err(e) => Err(e.0),
    }
}

/// Relies on tokio's `broadcast::Sender::subscribe`: a receiver of the
/// messages sent after this call. Its one panic, at `usize::MAX >> 2` live
/// receivers, needs more receivers than memory can hold.
#[verifier::external_body]
fn subscribe_to(tx: &Sender<String>) -> (r: Receiver<String>) {
    tx.subscribe()
}

/// The state that all connections share: the display names and the network
/// addresses in use, and the broadcast point for chat text.
pub struct AppState {
    user_set: Vec<String>,
    ip_map: Vec<String>,
    tx: Sender<String>,
}

impl AppState {
    /// The display names in use.
    pub closed spec fn names(&self) -> Set<Seq<char>> {
        keys(self.user_set@)
    }

    /// The network addresses in use.
    pub closed spec fn addrs(&self) -> Set<Seq<char>> {
        keys(self.ip_map@)
    }

    /// Each name and each address is held once.
    pub closed spec fn wf(&self) -> bool {
        distinct(self.user_set@) && distinct(self.ip_map@)
    }

    /// Both registries empty, and a broadcast point without subscribers.
    pub fn new() -> (r: Self)
        ensures
            r.wf(),
            r.names() == Set::<Seq<char>>::empty(),
            r.addrs() == Set::<Seq<char>>::empty(),
    {
        let r = AppState { user_set: Vec::new(), ip_map: Vec::new(), tx: new_sender(CHANNEL_CAPACITY) };
        assert(r.names() =~= Set::<Seq<char>>::empty());
        assert(r.addrs() =~= Set::<Seq<char>>::empty());
        r
    }

    /// Claims `name` unless it is in use. On success the name joins the
    /// registry and is appended to `string`; otherwise nothing changes.
    pub fn try_register_username(&mut self, string: &mut String, name: &str) -> (r: bool)
        requires
            old(self).wf(),
        ensures
            final(self).wf(),
            r == !old(self).names().contains(name@),
            final(self).names() == old(self).names().insert(name@),
            final(self).addrs() == old(self).addrs(),
            final(string)@ == if r { old(string)@ + name@ } else { old(string)@ },
    {
        let r = insert_key(&mut self.user_set, name);
        if r {
            string.append(name);
        }
        r
    }

    /// Claims address `ip` unless it is in use. When it is in use,
    /// `is_already_contained` is set and nothing else changes; otherwise the
    /// address joins the registry and the flag keeps its value.
    pub fn try_register_ip(&mut self, ip: &str, is_already_contained: &mut bool)
        requires
            old(self).wf(),
        ensures
            final(self).wf(),
            *final(is_already_contained) == (*old(is_already_contained) || old(self).addrs().contains(ip@)),
            final(self).addrs() == old(self).addrs().insert(ip@),
            final(self).names() == old(self).names(),
    {
        if !insert_key(&mut self.ip_map, ip) {
            *is_already_contained = true;
        }
    }

    /// Releases address `ip`; an absent address is no error.
    pub fn unregister_ip(&mut self, ip: &str)
        requires
            old(self).wf(),
        ensures
            final(self).wf(),
            final(self).addrs() == old(self).addrs().remove(ip@),
            final(self).names() == old(self).names(),
    {
        remove_key(&mut self.ip_map, ip);
    }

    /// Releases display name `name`; an absent name is no error.
    pub fn unregister_username(&mut self, name: &str)
        requires
            old(self).wf(),
        ensures
            final(self).wf(),
            final(self).names() == old(self).names().remove(name@),
            final(self).addrs() == old(self).addrs(),
    {
        remove_key(&mut self.user_set, name);
    }

    /// Sends `msg` to every current subscriber; with none it is dropped.
    /// Returns how many subscribers it was queued for.
    pub fn publish(&self, msg: String) -> (r: usize) {
        match send_message(&self.tx, msg) {
            Ok(n) => n,
            Err(_) => 0,
        }
    }

    /// A receiver of every message published after this call.
    pub fn subscribe(&self) -> (r: Receiver<String>) {
        subscribe_to(&self.tx)
    }
}

} // verus!
