//! Sizing and growth of the output buffer.

use vstd::prelude::*;

use crate::text::same_text;

verus! {

/// The smallest initial capacity that a setting may ask for.
pub const MIN_BUFFER_SIZE: usize = 4096;

/// The initial capacity where no valid setting asks for another.
pub const DEFAULT_BUFFER_SIZE: usize = 65536;

/// The step of the fixed growth strategy.
pub const FIXED_GROWTH_STEP: usize = 32768;

/// How the output buffer grows when a write does not fit.
#[derive(Debug, Clone, Copy, PartialEq, Eq, Structural)]
pub enum Growth {
    /// Four times the capacity, or enough for the write and one initial capacity more.
    X4,
    /// Twice the capacity, or enough for the write and one initial capacity more.
    X2,
    /// Whole steps of the given size until the write fits.
    Fixed(usize),
}

/// Initial capacity and growth strategy of output buffers, chosen once per process.
#[derive(Debug, Clone, Copy, PartialEq, Eq, Structural)]
pub struct BufferPolicy {
    pub initial_cap: usize,
    pub strategy: Growth,
}

/// The digits `0`-`9`.
pub open spec fn is_digit(c: char) -> bool {
    '0' <= c && c <= '9'
}

/// The value of a run of decimal digits.
pub open spec fn digits_value(s: Seq<char>) -> nat
    decreases s.len(),
{
    if s.len() == 0 {
        0
    } else {
        digits_value(s.drop_last()) * 10 + ((s.last() as u32) - ('0' as u32)) as nat
    }
}

/// The digits of a number as `usize::from_str` reads them: one optional `+`.
pub open spec fn unsigned_digits(s: Seq<char>) -> Seq<char> {
    if s.len() > 0 && s[0] == '+' {
        s.drop_first()
    } else {
        s
    }
}

/// What `str::parse::<usize>` makes of a text.
pub open spec fn parsed_usize(s: Seq<char>) -> Option<nat> {
    let d = unsigned_digits(s);
    if d.len() > 0 && (forall|i: int| 0 <= i < d.len() ==> is_digit(#[trigger] d[i]))
        && digits_value(d) <= usize::MAX {
        Some(digits_value(d))
    } else {
        None
    }
}

proof fn lemma_not_all_digits(s: Seq<char>, k: int)
    requires
        0 <= k < unsigned_digits(s).len(),
        !is_digit(unsigned_digits(s)[k]),
    ensures
        parsed_usize(s) is None,
{
    let d = unsigned_digits(s);
    assert(!(forall|i: int| 0 <= i < d.len() ==> is_digit(#[trigger] d[i])));
}

proof fn lemma_digits_value_grows(s: Seq<char>, k: int)
    requires
        0 <= k <= s.len(),
        forall|i: int| 0 <= i < s.len() ==> is_digit(#[trigger] s[i]),
    ensures
        digits_value(s.subrange(0, k)) <= digits_value(s),
    decreases s.len() - k,
{
    if k < s.len() {
        lemma_digits_value_grows(s, k + 1);
        assert(s.subrange(0, k + 1).drop_last() =~= s.subrange(0, k));
    } else {
        assert(s.subrange(0, k) =~= s);
    }
}

/// Reads a decimal `usize` as `str::parse::<usize>` does.
pub fn parse_usize(s: &str) -> (r: Option<usize>)
    ensures
        match parsed_usize(s@) {
            Some(n) => r == Some(n as usize),
            None => r is None,
        },
{
    let n = s.unicode_len();
    let mut start: usize = 0;
    if n > 0 && s.get_char(0) == '+' {
        start = 1;
    }
    let ghost d = unsigned_digits(s@);
    assert(d =~= s@.subrange(start as int, n as int));
    if start == n {
        return None;
    }
    let mut acc: usize = 0;
    let mut i: usize = start;
    while i < n
        invariant
            n == s@.len(),
            start <= i <= n,
            d == s@.subrange(start as int, n as int),
            d == unsigned_digits(s@),
            forall|j: int| 0 <= j < i - start ==> is_digit(#[trigger] d[j]),
            acc as nat == digits_value(d.subrange(0, i - start)),
        decreases n - i,
    {
        let c = s.get_char(i);
        if !('0' <= c && c <= '9') {
            proof {
                lemma_not_all_digits(s@, (i - start) as int);
            }
            return None;
        }
        let digit = ((c as u32) - ('0' as u32)) as usize;
        let ghost next = d.subrange(0, i + 1 - start);
        assert(next.drop_last() =~= d.subrange(0, i - start));
        assert(next.last() == c);
        assert(digits_value(next) == acc * 10 + digit);
        if acc > (usize::MAX - digit) / 10 {
            assert(digits_value(next) > usize::MAX) by (nonlinear_arith)
                requires
                    acc > (usize::MAX - digit) / 10,
                    digits_value(next) == acc * 10 + digit,
                    digit <= 9,
            ;
            proof {
                if forall|j: int| 0 <= j < d.len() ==> is_digit(#[trigger] d[j]) {
                    lemma_digits_value_grows(d, i + 1 - start);
                }
            }
            assert(parsed_usize(s@) is None);
            return None;
        }
        acc = acc * 10 + digit;
        i = i + 1;
    }
    assert(d.subrange(0, n - start) =~= d);
    Some(acc)
}

/// The policy that the two settings ask for: an initial capacity of at
/// least `MIN_BUFFER_SIZE` (else `DEFAULT_BUFFER_SIZE`), and growth `x2`,
/// `X2`, `fixed32k` or, by default, four times.
pub open spec fn policy_for(init_buf: Option<Seq<char>>, growth: Option<Seq<char>>) -> BufferPolicy {
    let initial = match init_buf {
        Some(v) => match parsed_usize(v) {
            Some(n) => if n >= MIN_BUFFER_SIZE {
                n as usize
            } else {
                DEFAULT_BUFFER_SIZE
            },
            None => DEFAULT_BUFFER_SIZE,
        },
        None => DEFAULT_BUFFER_SIZE,
    };
    let strategy = match growth {
        Some(g) => if g == "x2"@ || g == "X2"@ {
            Growth::X2
        } else if g == "fixed32k"@ {
            Growth::Fixed(FIXED_GROWTH_STEP)
        } else {
            Growth::X4
        },
        None => Growth::X4,
    };
    BufferPolicy { initial_cap: initial, strategy }
}

/// The capacity that growth gives where `required` exceeds `capacity`.
pub open spec fn grown(p: BufferPolicy, capacity: nat, required: nat) -> nat {
    match p.strategy {
        Growth::X4 => max_nat(sat(capacity * 4), sat(required + p.initial_cap as nat)),
        Growth::X2 => max_nat(sat(capacity * 2), sat(required + p.initial_cap as nat)),
        Growth::Fixed(step) => fixed_steps(capacity, required, step as nat),
    }
}

pub open spec fn max_nat(a: nat, b: nat) -> nat {
    if a >= b {
        a
    } else {
        b
    }
}

/// Saturation at `usize::MAX`.
pub open spec fn sat(a: nat) -> nat {
    if a > usize::MAX {
        usize::MAX as nat
    } else {
        a
    }
}

/// Whole steps added to `capacity`, saturating, until `required` fits.
pub open spec fn fixed_steps(capacity: nat, required: nat, step: nat) -> nat
    decreases usize::MAX - capacity,
{
    if capacity >= required || step == 0 || capacity >= usize::MAX {
        capacity
    } else {
        fixed_steps(sat(capacity + step), required, step)
    }
}

impl BufferPolicy {
    /// A policy is usable where its fixed step, if any, is positive.
    pub open spec fn wf(&self) -> bool {
        self.strategy matches Growth::Fixed(step) ==> step > 0
    }

    /// The policy that the two settings ask for.
    pub fn from_settings(init_buf: Option<&str>, growth: Option<&str>) -> (r: BufferPolicy)
        ensures
            r == policy_for(opt_view(init_buf), opt_view(growth)),
            r.wf(),
    {
        let initial = match init_buf {
            Some(v) => match parse_usize(v) {
                Some(n) => if n >= MIN_BUFFER_SIZE {
                    n
                } else {
                    DEFAULT_BUFFER_SIZE
                },
                None => DEFAULT_BUFFER_SIZE,
            },
            None => DEFAULT_BUFFER_SIZE,
        };
        let strategy = match growth {
            Some(g) => if same_text(g, "x2") || same_text(g, "X2") {
                Growth::X2
            } else if same_text(g, "fixed32k") {
                Growth::Fixed(FIXED_GROWTH_STEP)
            } else {
                Growth::X4
            },
            None => Growth::X4,
        };
        BufferPolicy { initial_cap: initial, strategy }
    }

    /// The capacity to grow to where a write needs `required` bytes and the
    /// buffer holds `capacity`: never less than `required`.
    pub fn grown_capacity(&self, capacity: usize, required: usize) -> (r: usize)
        requires
            self.wf(),
            capacity < required,
        ensures
            r == grown(*self, capacity as nat, required as nat),
            r >= required,
    {
        match self.strategy {
            Growth::X4 => {
                let a = if capacity > usize::MAX / 4 {
                    usize::MAX
                } else {
                    capacity * 4
                };
                let b = required.saturating_add(self.initial_cap);
                if a >= b {
                    a
                } else {
                    b
                }
            },
            Growth::X2 => {
                let a = if capacity > usize::MAX / 2 {
                    usize::MAX
                } else {
                    capacity * 2
                };
                let b = required.saturating_add(self.initial_cap);
                if a >= b {
                    a
                } else {
                    b
                }
            },
            Growth::Fixed(step) => {
                let mut cap = capacity;
                while cap < required
                    invariant
                        step > 0,
                        fixed_steps(cap as nat, required as nat, step as nat) == fixed_steps(
                            capacity as nat,
                            required as nat,
                            step as nat,
                        ),
                    decreases usize::MAX - cap,
                {
                    cap = if cap > usize::MAX - step {
                        usize::MAX
                    } else {
                        cap + step
                    };
                }
                cap
            },
        }
    }
}

/// The text of an optional string slice.
pub open spec fn opt_view(o: Option<&str>) -> Option<Seq<char>> {
    match o {
        Some(s) => Some(s@),
        None => None,
    }
}

} // verus!
