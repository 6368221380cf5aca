//! The command-line and environment settings the driver hands the proxy.

use vstd::prelude::*;
use vstd::string::*;
use vstd::arithmetic::div_mod::lemma_fundamental_div_mod;
use crate::event_loop::EventLoop;

verus! {

/// The bootstrap file read when none is given.
pub const DEFAULT_CONFIG_PATH: &'static str = "bootstrap.yaml";

/// The driver's settings: where the bootstrap document is, and the runtime
/// shape.
#[derive(PartialEq, Eq, Clone, Debug)]
pub struct Args {
    pub config_path: String,
    pub event_loop_kind: EventLoop,
}

impl Args {
    /// The settings with no flag given: `bootstrap.yaml`, one shared pool.
    pub fn new() -> (r: Args)
        ensures
            r.config_path@ == DEFAULT_CONFIG_PATH@,
            r.event_loop_kind == EventLoop::ThreadPool,
    {
        Args { config_path: String::from_str(DEFAULT_CONFIG_PATH), event_loop_kind: EventLoop::ThreadPool }
    }
}

/// The runtime shape the flags `--independent` and `--thread-pool` select;
/// `None` when both are given, which is a usage error.
pub fn event_loop_from_flags(independent: bool, thread_pool: bool) -> (r: Option<EventLoop>)
    ensures
        r == (if independent && thread_pool {
            None
        } else if independent {
            Some(EventLoop::MultiSingleThreaded)
        } else {
            Some(EventLoop::ThreadPool)
        }),
{
    if independent {
        if thread_pool {
            None
        } else {
            Some(EventLoop::MultiSingleThreaded)
        }
    } else {
        Some(EventLoop::ThreadPool)
    }
}

pub open spec fn is_digit(c: char) -> bool {
    '0' <= c && c <= '9'
}

pub open spec fn digit_value(c: char) -> int {
    (c as u32) as int - ('0' as u32) as int
}

pub open spec fn all_digits(d: Seq<char>) -> bool {
    forall|i: int| 0 <= i < d.len() ==> is_digit(#[trigger] d[i])
}

/// The number written by a string of decimal digits.
pub open spec fn digits_value(d: Seq<char>) -> int
    decreases d.len(),
{
    if d.len() == 0 {
        0
    } else {
        digits_value(d.drop_last()) * 10 + digit_value(d.last())
    }
}

/// A string without its leading `+`, if it has one.
pub open spec fn unsigned_part(s: Seq<char>) -> Seq<char> {
    if s.len() > 0 && s[0] == '+' {
        s.drop_first()
    } else {
        s
    }
}

/// The worker count a `CONCURRENCY` value gives: a positive decimal integer
/// (with an optional `+`) that fits in `usize`; anything else gives none.
pub open spec fn concurrency_of(s: Seq<char>) -> Option<usize> {
    let d = unsigned_part(s);
    if d.len() > 0 && all_digits(d) && 0 < digits_value(d) <= usize::MAX {
        Some(digits_value(d) as usize)
    } else {
        None
    }
}

proof fn lemma_digits_value_grows(d: Seq<char>, i: int)
    requires
        0 <= i <= d.len(),
        all_digits(d),
    ensures
        digits_value(d.subrange(0, i)) <= digits_value(d),
    decreases d.len() - i,
{
    if i < d.len() {
        lemma_digits_value_grows(d, i + 1);
        let p = d.subrange(0, i + 1);
        assert(p.drop_last() =~= d.subrange(0, i));
        assert(is_digit(d[i]));
        assert(digits_value(d.subrange(0, i)) >= 0) by {
            lemma_digits_value_nonneg(d.subrange(0, i));
        }
    } else {
        assert(d.subrange(0, i) =~= d);
    }
}

proof fn lemma_digits_value_nonneg(d: Seq<char>)
    requires
        all_digits(d),
    ensures
        digits_value(d) >= 0,
    decreases d.len(),
{
    if d.len() > 0 {
        assert(is_digit(d[d.len() - 1]));
        lemma_digits_value_nonneg(d.drop_last());
    }
}

/// Reads a `CONCURRENCY` value.
pub fn parse_concurrency(value: &str) -> (r: Option<usize>)
    ensures
        r == concurrency_of(value@),
{
    let n = value.unicode_len();
    let mut start: usize = 0;
    if n > 0 && value.get_char(0) == '+' {
        start = 1;
    }
    let ghost d = unsigned_part(value@);
    assert(d =~= value@.subrange(start as int, n as int));
    if start == n {
        return None;
    }
    let mut i: usize = start;
    let mut acc: usize = 0;
    while i < n
        invariant
            start <= i <= n,
            n == value@.len(),
            d == value@.subrange(start as int, n as int),
            d == unsigned_part(value@),
            all_digits(d.subrange(0, i - start)),
            acc == digits_value(d.subrange(0, i - start)),
        decreases n - i,
    {
        let c = value.get_char(i);
        let ghost k = i - start;
        let ghost p = d.subrange(0, k + 1);
        assert(c == d[k]);
        assert(p.drop_last() =~= d.subrange(0, k));
        if !('0' <= c && c <= '9') {
            assert(!is_digit(d[k]));
            return None;
        }
        let digit = (c as u32 - '0' as u32) as usize;
        assert(digit <= 9);
        if acc > (usize::MAX - digit) / 10 {
            proof {
                lemma_fundamental_div_mod(usize::MAX - digit, 10);
                assert(acc * 10 + digit > usize::MAX) by (nonlinear_arith)
                    requires
                        acc > (usize::MAX - digit) / 10,
                        usize::MAX - digit == 10 * ((usize::MAX - digit) / 10) + (usize::MAX
                            - digit) % 10,
                        (usize::MAX - digit) % 10 < 10,
                ;
                assert(digits_value(p) == acc * 10 + digit);
                if all_digits(d) {
                    lemma_digits_value_grows(d, k + 1);
                }
            }
            return None;
        }
        proof {
            lemma_fundamental_div_mod(usize::MAX - digit, 10);
            assert(acc * 10 + digit <= usize::MAX) by (nonlinear_arith)
                requires
                    acc <= (usize::MAX - digit) / 10,
                    usize::MAX - digit == 10 * ((usize::MAX - digit) / 10) + (usize::MAX - digit)
                        % 10,
                    (usize::MAX - digit) % 10 >= 0,
            ;
        }
        acc = acc * 10 + digit;
        i = i + 1;
        assert(all_digits(d.subrange(0, i - start)));
    }
    assert(d.subrange(0, n - start) =~= d);
    if acc == 0 {
        None
    } else {
        Some(acc)
    }
}

} // verus!
