//! Classification of one line of player input.
//!
//! Reading the line is the caller's business; [`classify_input`] decides
//! what it means: `q` (after trimming ASCII whitespace) asks to quit, a
//! decimal integer that fits in `i64` selects an item, and anything else
//! is invalid and leads to a re-prompt.

use vstd::prelude::*;

verus! {

/// What one line of player input means.
pub enum InputResult<I> {
    /// A selection.
    Item(I),
    /// Unusable input, carried for diagnostics; the player is re-prompted.
    Invalid(String),
    /// An explicit request to quit.
    Quit,
}

/// ASCII whitespace, as trimmed from player input.
pub open spec fn is_ws(c: char) -> bool {
    c == ' ' || c == '\t' || c == '\r' || c == '\n'
}

/// The input with leading and trailing ASCII whitespace removed.
pub open spec fn trimmed(s: Seq<char>) -> Seq<char>
    decreases s.len(),
{
    if s.len() > 0 && is_ws(s[0]) {
        trimmed(s.drop_first())
    } else if s.len() > 0 && is_ws(s.last()) {
        trimmed(s.drop_last())
    } else {
        s
    }
}

/// A decimal digit.
pub open spec fn is_digit(c: char) -> bool {
    48 <= c as u32 <= 57
}

/// Every character is a decimal digit.
pub open spec fn all_digits(s: Seq<char>) -> bool {
    forall|i: int| 0 <= i < s.len() ==> is_digit(#[trigger] s[i])
}

/// The value of a sequence of decimal digits, most significant first.
pub open spec fn digits_val(s: Seq<char>) -> int
    decreases s.len(),
{
    if s.len() == 0 {
        0
    } else {
        digits_val(s.drop_last()) * 10 + (s.last() as u32 - 48)
    }
}

/// What parsing the (already trimmed) input as an `i64` yields: an
/// optional sign followed by at least one digit and nothing else, with
/// the value in range.
pub open spec fn parsed_i64(s: Seq<char>) -> Option<i64> {
    let neg = s.len() > 0 && s[0] == '-';
    let signed = s.len() > 0 && (s[0] == '-' || s[0] == '+');
    let ds = if signed {
        s.drop_first()
    } else {
        s
    };
    if ds.len() == 0 || !all_digits(ds) {
        None
    } else {
        let v = if neg {
            -digits_val(ds)
        } else {
            digits_val(ds)
        };
        if i64::MIN <= v <= i64::MAX {
            Some(v as i64)
        } else {
            None
        }
    }
}

/// The value of a digit sequence is non-negative.
proof fn lemma_digits_val_nonneg(s: Seq<char>)
    requires
        all_digits(s),
    ensures
        digits_val(s) >= 0,
    decreases s.len(),
{
    if s.len() > 0 {
        assert(all_digits(s.drop_last())) by {
            assert(forall|i: int|
                0 <= i < s.len() - 1 ==> is_digit(#[trigger] s.drop_last()[i]) == is_digit(s[i]));
        }
        lemma_digits_val_nonneg(s.drop_last());
    }
}

/// Appending digits never shrinks the value.
proof fn lemma_digits_val_prefix(s: Seq<char>, k: int)
    requires
        all_digits(s),
        0 <= k <= s.len(),
    ensures
        digits_val(s.take(k)) <= digits_val(s),
    decreases s.len() - k,
{
    if k < s.len() {
        lemma_digits_val_prefix(s, k + 1);
        let t = s.take(k + 1);
        assert(t.drop_last() =~= s.take(k));
        assert(all_digits(s.take(k))) by {
            assert(forall|i: int|
                0 <= i < k ==> is_digit(#[trigger] s.take(k)[i]) == is_digit(s[i]));
        }
        lemma_digits_val_nonneg(s.take(k));
        assert(digits_val(t) == digits_val(s.take(k)) * 10 + (t.last() as u32 - 48));
        assert(is_digit(t.last()));
        assert(digits_val(s.take(k)) <= digits_val(t)) by (nonlinear_arith)
            requires
                digits_val(t) == digits_val(s.take(k)) * 10 + (t.last() as u32 - 48),
                digits_val(s.take(k)) >= 0,
                t.last() as u32 >= 48,
        ;
    } else {
        assert(s.take(k) =~= s);
    }
}

/// The trimmed input equals the subrange that the scan found: everything
/// before `a` and from `b` on is whitespace, and the ends of the subrange
/// are not.
proof fn lemma_trimmed_subrange(s: Seq<char>, a: int, b: int)
    requires
        0 <= a <= b <= s.len(),
        forall|i: int| 0 <= i < a ==> is_ws(#[trigger] s[i]),
        forall|i: int| b <= i < s.len() ==> is_ws(#[trigger] s[i]),
        a < b ==> !is_ws(s[a]) && !is_ws(s[b - 1]),
        a == b ==> a == 0 && b == s.len() || s.len() > 0,
    ensures
        trimmed(s) == s.subrange(a, b),
    decreases s.len(),
{
    if a == b {
        if s.len() == 0 {
            assert(trimmed(s) =~= s.subrange(a, b));
        } else {
            let t = s.drop_first();
            assert(forall|i: int| 0 <= i < t.len() ==> is_ws(#[trigger] t[i]) == is_ws(s[i + 1]));
            lemma_trimmed_subrange(t, 0, 0);
            assert(trimmed(s) == trimmed(t));
            assert(s.subrange(a, b) =~= t.subrange(0, 0));
        }
    } else if a > 0 {
        let t = s.drop_first();
        assert(forall|i: int| 0 <= i < t.len() ==> #[trigger] t[i] == s[i + 1]);
        lemma_trimmed_subrange(t, a - 1, b - 1);
        assert(trimmed(s) == trimmed(t));
        assert(s.subrange(a, b) =~= t.subrange(a - 1, b - 1));
    } else if b < s.len() {
        let t = s.drop_last();
        assert(forall|i: int| 0 <= i < t.len() ==> #[trigger] t[i] == s[i]);
        assert(!is_ws(s[0]));
        lemma_trimmed_subrange(t, 0, b);
        assert(trimmed(s) == trimmed(t));
        assert(s.subrange(a, b) =~= t.subrange(0, b));
    } else {
        assert(trimmed(s) == s);
        assert(s.subrange(a, b) =~= s);
    }
}

/// Decide what one raw line of player input means: `q` quits, a decimal
/// integer in `i64` range selects, anything else re-prompts.
pub fn classify_input(line: &str) -> (r: InputResult<i64>)
    ensures
        trimmed(line@) == "q"@ ==> r is Quit,
        trimmed(line@) != "q"@ ==> (parsed_i64(trimmed(line@)) matches Some(v) ==> r
            == InputResult::<i64>::Item(v)),
        trimmed(line@) != "q"@ && parsed_i64(trimmed(line@)) is None ==> (r matches
            InputResult::Invalid(raw) && raw@ == trimmed(line@)),
{
    let n = line.unicode_len();
    let mut a: usize = 0;
    while a < n && is_ws_exec(line.get_char(a))
        invariant
            n == line@.len(),
            a <= n,
            forall|i: int| 0 <= i < a ==> is_ws(#[trigger] line@[i]),
        decreases n - a,
    {
        a += 1;
    }
    let mut b: usize = n;
    while b > a && is_ws_exec(line.get_char(b - 1))
        invariant
            n == line@.len(),
            a <= b <= n,
            forall|i: int| 0 <= i < a ==> is_ws(#[trigger] line@[i]),
            forall|i: int| b <= i < n ==> is_ws(#[trigger] line@[i]),
        decreases b,
    {
        b -= 1;
    }
    let t = line.substring_char(a, b);
    proof {
        if a == b && !(a == 0 && b == n) {
            assert(n > 0);
        }
        lemma_trimmed_subrange(line@, a as int, b as int);
        assert(t@ == trimmed(line@));
    }
    if t.unicode_len() == 1 && t.get_char(0) == 'q' {
        proof {
            reveal_strlit("q");
            assert(t@ =~= "q"@);
        }
        return InputResult::Quit;
    }
    proof {
        reveal_strlit("q");
        if t@.len() == 1 && t@[0] == 'q' {
            assert(t@ =~= "q"@);
        }
        assert(t@ != "q"@);
    }
    parse_selection(t)
}

/// ASCII-whitespace test on one character.
fn is_ws_exec(c: char) -> (r: bool)
    ensures
        r == is_ws(c),
{
    c == ' ' || c == '\t' || c == '\r' || c == '\n'
}

/// Parse an already-trimmed line as a decimal `i64`.
fn parse_selection(t: &str) -> (r: InputResult<i64>)
    ensures
        parsed_i64(t@) matches Some(v) ==> r == InputResult::<i64>::Item(v),
        parsed_i64(t@) is None ==> (r matches InputResult::Invalid(raw) && raw@ == t@),
{
    let n = t.unicode_len();
    if n == 0 {
        return InputResult::Invalid(t.to_owned());
    }
    let first = t.get_char(0);
    let neg = first == '-';
    let signed = first == '-' || first == '+';
    let start: usize = if signed {
        1
    } else {
        0
    };
    let ghost ds = if signed {
        t@.drop_first()
    } else {
        t@
    };
    proof {
        assert(ds.len() == n - start);
        assert(forall|i: int| 0 <= i < ds.len() ==> #[trigger] ds[i] == t@[i + start]);
    }
    if start >= n {
        return InputResult::Invalid(t.to_owned());
    }
    // The magnitude may not exceed this bound: one more for a negative
    // number, whose magnitude reaches 1 past `i64::MAX`.
    let limit: u64 = if neg {
        9223372036854775808
    } else {
        9223372036854775807
    };
    let mut acc: u64 = 0;
    let mut i: usize = start;
    while i < n
        invariant
            n == t@.len(),
            start <= i <= n,
            start < n,
            ds.len() == n - start,
            forall|j: int| 0 <= j < ds.len() ==> #[trigger] ds[j] == t@[j + start],
            all_digits(ds.take(i - start)),
            acc == digits_val(ds.take(i - start)),
            acc <= limit,
            limit == if neg {
                9223372036854775808u64
            } else {
                9223372036854775807u64
            },
            parsed_i64(t@) is Some ==> all_digits(ds),
            neg == (t@[0] == '-'),
            (t@[0] == '-' || t@[0] == '+') == (start == 1),
            ds == if t@[0] == '-' || t@[0] == '+' {
                t@.drop_first()
            } else {
                t@
            },
        decreases n - i,
    {
        let c = t.get_char(i);
        let cv = c as u32;
        if cv < 48 || cv > 57 {
            proof {
                assert(ds[i - start] == c);
                assert(!is_digit(c));
                assert(!all_digits(ds));
                assert(parsed_i64(t@) is None);
            }
            return InputResult::Invalid(t.to_owned());
        }
        let d = (cv - 48) as u64;
        let ghost pre = ds.take(i - start);
        proof {
            assert(pre.push(c) =~= ds.take(i - start + 1));
            assert(ds.take(i - start + 1).drop_last() =~= pre);
        }
        if acc > (limit - d) / 10 {
            proof {
                lemma_overflow_means_out_of_range(t@, ds, i - start, acc, d, limit, neg);
            }
            return InputResult::Invalid(t.to_owned());
        }
        proof {
            assert(acc * 10 + d <= limit) by (nonlinear_arith)
                requires
                    acc <= (limit - d) / 10,
                    0 <= d <= limit,
            ;
        }
        acc = acc * 10 + d;
        i += 1;
        proof {
            assert(ds.take(i - start).last() == c);
            assert(digits_val(ds.take(i - start)) == digits_val(pre) * 10 + (c as u32 - 48));
        }
    }
    proof {
        assert(ds.take(n - start) =~= ds);
        assert(all_digits(ds));
        lemma_digits_val_nonneg(ds);
    }
    if neg {
        if acc == 9223372036854775808 {
            proof {
                assert(parsed_i64(t@) == Some(i64::MIN));
            }
            return InputResult::Item(i64::MIN);
        }
        let v = -(acc as i64);
        proof {
            assert(parsed_i64(t@) == Some(v));
        }
        InputResult::Item(v)
    } else {
        let v = acc as i64;
        proof {
            assert(parsed_i64(t@) == Some(v));
        }
        InputResult::Item(v)
    }
}

/// If the accumulator would exceed the limit on the next digit, the whole
/// digit string is out of range, so parsing fails.
proof fn lemma_overflow_means_out_of_range(
    s: Seq<char>,
    ds: Seq<char>,
    k: int,
    acc: u64,
    d: u64,
    limit: u64,
    neg: bool,
)
    requires
        0 <= k < ds.len(),
        all_digits(ds.take(k)),
        is_digit(ds[k]),
        acc == digits_val(ds.take(k)),
        d == ds[k] as u32 - 48,
        acc > (limit - d) / 10,
        limit == if neg {
            9223372036854775808u64
        } else {
            9223372036854775807u64
        },
        ({
            let signed = s.len() > 0 && (s[0] == '-' || s[0] == '+');
            ds == if signed {
                s.drop_first()
            } else {
                s
            }
        }),
        s.len() > 0,
        neg == (s[0] == '-'),
    ensures
        parsed_i64(s) is None,
{
    if all_digits(ds) {
        assert(digits_val(ds.take(k + 1)) == digits_val(ds.take(k)) * 10 + d) by {
            assert(ds.take(k + 1).drop_last() =~= ds.take(k));
            assert(ds.take(k + 1).last() == ds[k]);
        }
        assert(digits_val(ds.take(k + 1)) > limit) by (nonlinear_arith)
            requires
                digits_val(ds.take(k + 1)) == acc * 10 + d,
                acc > (limit - d) / 10,
                0 <= d <= 9,
                limit >= 9,
        ;
        lemma_digits_val_prefix(ds, k + 1);
        assert(digits_val(ds) > limit);
    }
}

} // verus!
