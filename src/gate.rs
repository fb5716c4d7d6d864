use vstd::prelude::*;

use crate::text::same_text;

verus! {

/// What `str::to_lowercase` gives for `s`.
pub uninterp spec fn lower_of(s: Seq<char>) -> Seq<char>;

/// Relies on `str::to_lowercase`: Unicode's lower-case mapping, a function of the text alone.
#[verifier::external_body]
fn lowercase(s: &str) -> (r: String)
    ensures
        r@ == lower_of(s@),
{
    s.to_lowercase()
}

/// `pat` occurs in `s` at position `i`.
pub open spec fn occurs_at(s: Seq<char>, pat: Seq<char>, i: int) -> bool {
    0 <= i && i + pat.len() <= s.len() && s.subrange(i, i + pat.len()) == pat
}

/// `pat` occurs somewhere in `s`.
pub open spec fn occurs(s: Seq<char>, pat: Seq<char>) -> bool {
    exists|i: int| #[trigger] occurs_at(s, pat, i)
}

/// Whether `pat` occurs in `s`.
pub fn contains_text(s: &str, pat: &str) -> (r: bool)
    ensures
        r == occurs(s@, pat@),
{
    let n = s.unicode_len();
    let k = pat.unicode_len();
    if k > n {
        assert(!occurs(s@, pat@)) by {
            if occurs(s@, pat@) {
                let i = choose|i: int| #[trigger] occurs_at(s@, pat@, i);
            }
        }
        return false;
    }
    let last = n - k;
    let mut i: usize = 0;
    loop
        invariant
            n == s@.len(),
            k == pat@.len(),
            last == n - k,
            i <= last,
            forall|j: int| 0 <= j < i ==> !#[trigger] occurs_at(s@, pat@, j),
        ensures
            forall|j: int| 0 <= j <= last ==> !#[trigger] occurs_at(s@, pat@, j),
        decreases last - i,
    {
        if same_text(s.substring_char(i, i + k), pat) {
            assert(occurs_at(s@, pat@, i as int));
            return true;
        }
        assert(!occurs_at(s@, pat@, i as int));
        if i == last {
            break;
        }
        i = i + 1;
    }
    assert(!occurs(s@, pat@)) by {
        if occurs(s@, pat@) {
            let j = choose|j: int| #[trigger] occurs_at(s@, pat@, j);
            assert(j <= last);
        }
    }
    false
}

/// Whether a request may reach the server: a Socket.IO path, or a WebSocket upgrade.
pub open spec fn admitted(path: Seq<char>, upgrade: Option<Seq<char>>) -> bool {
    occurs_at(path, "/socket.io/"@, 0) || (upgrade is Some && occurs(
        lower_of(upgrade->0),
        "websocket"@,
    ))
}

/// Decides whether a request may reach the server: its path starts with `/socket.io/`, or
/// its `upgrade` header names `websocket` in any case.
pub fn socket_io_validation(path: &str, upgrade: Option<&str>) -> (r: bool)
    ensures
        r == admitted(path@, match upgrade {
            Some(u) => Some(u@),
            None => None,
        }),
{
    let prefix = "/socket.io/";
    let n = path.unicode_len();
    let k = prefix.unicode_len();
    let on_path = k <= n && same_text(path.substring_char(0, k), prefix);
    if on_path {
        return true;
    }
    assert(!occurs_at(path@, prefix@, 0));
    match upgrade {
        Some(u) => contains_text(lowercase(u).as_str(), "websocket"),
        None => false,
    }
}

} // verus!
