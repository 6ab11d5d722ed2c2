use vstd::prelude::*;

verus! {

/// The smallest value a server-advertised quota field is taken to have.
pub open spec fn at_least_one(x: int) -> int {
    if x < 1 { 1 } else { x }
}

/// Milliseconds to wait after each remote call so that `messages` calls
/// spread evenly over a window of `window_seconds` seconds, rounded up.
pub open spec fn delay_millis(messages: int, window_seconds: int) -> int {
    let m = at_least_one(messages);
    let w = at_least_one(window_seconds);
    (w * 1000 + m - 1) / m
}

/// Per-call delay in milliseconds for a quota of `messages` calls in each
/// window of `window_seconds` seconds. Both inputs are clamped to at least 1,
/// so a server advertising no capacity gives neither a division by zero nor a
/// zero delay.
pub fn compute_delay(messages: i32, window_seconds: i32) -> (r: u64)
    ensures
        r == delay_millis(messages as int, window_seconds as int),
        1 <= r <= 1000 * i32::MAX,
{
    let m: u64 = if messages < 1 { 1 } else { messages as u64 };
    let w: u64 = if window_seconds < 1 { 1 } else { window_seconds as u64 };
    let n: u64 = w * 1000 + m - 1;
    assert(n / m >= 1) by (nonlinear_arith)
        requires
            n == w * 1000 + m - 1,
            w >= 1,
            m >= 1,
    ;
    let r = n / m;
    assert(r <= w * 1000) by (nonlinear_arith)
        requires
            r == n / m,
            n == w * 1000 + m - 1,
            w >= 1,
            m >= 1,
    ;
    r
}

} // verus!
