use vstd::prelude::*;

verus! {

/// The host part of a peer address written `host:port`: everything before
/// the last `:`, or the whole text when it holds none. An IPv6 host keeps
/// its brackets and inner colons (`[::1]:80` gives `[::1]`).
pub open spec fn is_host_of(h: Seq<char>, peer: Seq<char>) -> bool {
    &&& h.len() <= peer.len()
    &&& h == peer.subrange(0, h.len() as int)
    &&& if h.len() < peer.len() {
        &&& peer[h.len() as int] == ':'
        &&& forall|i: int| h.len() < i < peer.len() ==> peer[i] != ':'
    } else {
        forall|i: int| 0 <= i < peer.len() ==> peer[i] != ':'
    }
}

/// The text that `str::trim` leaves of `s`.
pub uninterp spec fn trimmed(s: Seq<char>) -> Seq<char>;

/// Relies on `str::trim`: `s` without its leading and trailing white space,
/// which depends on the characters of `s` alone.
#[verifier::external_body]
pub(crate) fn trim_text(s: &str) -> (r: &str)
    ensures
        r@ == trimmed(s@),
{
    s.trim()
}

/// The host of a peer address: the text before its last `:`.
pub fn host_of(peer: &str) -> (r: String)
    ensures
        is_host_of(r@, peer@),
{
    let n = peer.unicode_len();
    let mut i: usize = n;
    while i > 0 && peer.get_char(i - 1) != ':'
        invariant
            n == peer@.len(),
            i <= n,
            forall|j: int| i <= j < n ==> peer@[j] != ':',
        decreases i,
    {
        i = i - 1;
    }
    let end = if i == 0 { n } else { i - 1 };
    let r = peer.substring_char(0, end).to_owned();
    assert(r@.len() == end);
    r
}

/// Announcement that `name` has joined.
pub open spec fn joined_text(name: Seq<char>) -> Seq<char> {
    name + " joined."@
}

/// Chat line `text` sent by `name`.
pub open spec fn chat_text(name: Seq<char>, text: Seq<char>) -> Seq<char> {
    name + ": "@ + text
}

/// Announcement that `name` has left.
pub open spec fn left_text(name: Seq<char>) -> Seq<char> {
    name + " left."@
}

/// Builds the announcement that `name` has joined.
pub fn joined_message(name: &str) -> (r: String)
    ensures
        r@ == joined_text(name@),
{
    let mut r = name.to_owned();
    r.append(" joined.");
    r
}

/// Builds the chat line `text` sent by `name`.
pub fn chat_message(name: &str, text: &str) -> (r: String)
    ensures
        r@ == chat_text(name@, text@),
{
    let mut r = name.to_owned();
    r.append(": ");
    r.append(text);
    r
}

/// Builds the announcement that `name` has left.
pub fn left_message(name: &str) -> (r: String)
    ensures
        r@ == left_text(name@),
{
    let mut r = name.to_owned();
    r.append(" left.");
    r
}

} // verus!
