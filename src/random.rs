use rand::Rng;
use vstd::prelude::*;

use crate::text::push_char;

verus! {

/// Relies on rand's `Rng::gen_range` on the thread-local generator: a value drawn from
/// `lo..hi`. It panics on an empty range, which `requires` leaves out.
#[verifier::external_body]
pub(crate) fn random_below(lo: u32, hi: u32) -> (r: u32)
    requires
        lo < hi,
    ensures
        lo <= r < hi,
{
    rand::thread_rng().gen_range(lo..hi)
}

/// Relies on uuid's `Uuid::new_v7` at the current time, rendered by its `Display`: a fresh,
/// time-ordered identity. Nothing is promised of its value.
#[verifier::external_body]
pub(crate) fn new_identity() -> (r: String) {
    uuid::Uuid::new_v7(uuid::Timestamp::now(uuid::NoContext)).to_string()
}

/// The decimal digit `d` as a character.
pub fn digit_char(d: u32) -> (c: char)
    requires
        d < 10,
    ensures
        '0' <= c && c <= '9',
        c as u32 == 48 + d,
{
    ((48 + d) as u8) as char
}

/// The `k`-th character of `A`..`Z` followed by `0`..`9`.
pub fn code_char(k: u32) -> (c: char)
    requires
        k < 36,
    ensures
        ('A' <= c && c <= 'Z') || ('0' <= c && c <= '9'),
        c as u32 == if k < 26 {
            65 + k
        } else {
            22 + k
        },
{
    if k < 26 {
        ((65 + k) as u8) as char
    } else {
        ((48 + (k - 26)) as u8) as char
    }
}

/// `n` random decimal digits, the first of them not `0`.
pub fn random_digits(n: usize) -> (r: String)
    requires
        n >= 1,
    ensures
        r@.len() == n,
        r@[0] != '0',
        forall|i: int| 0 <= i < n ==> '0' <= #[trigger] r@[i] && r@[i] <= '9',
{
    let mut s = String::new();
    push_char(&mut s, digit_char(random_below(1, 10)));
    let mut i: usize = 1;
    while i < n
        invariant
            1 <= i <= n,
            s@.len() == i,
            s@[0] != '0',
            forall|j: int| 0 <= j < i ==> '0' <= #[trigger] s@[j] && s@[j] <= '9',
        decreases n - i,
    {
        push_char(&mut s, digit_char(random_below(0, 10)));
        i = i + 1;
    }
    s
}

} // verus!
