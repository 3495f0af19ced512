//! What the texts, paths and spans of time that everything else is made of mean.
use vstd::prelude::*;

use crate::paths;
use crate::text;
use crate::time;
use crate::time::UtcInstant;

verus! {

/// The number that decimal digits stand for.
pub open spec fn number(digits: Seq<char>) -> int
    decreases digits.len(),
{
    if digits.len() == 0 {
        0
    } else {
        number(digits.drop_last()) * 10 + (digits.last() as int - '0' as int)
    }
}

/// The decimal form of a number is made of digits, stands for the number, and
/// has no zero in front unless it is one.
pub proof fn decimals_read_back(n: nat)
    ensures
        ({
            let digits = text::decimal(n);
            &&& digits.len() > 0
            &&& forall|i: int| 0 <= i < digits.len() ==> '0' <= #[trigger] digits[i] <= '9'
            &&& number(digits) == n
            &&& digits[0] == '0' ==> n == 0 && digits.len() == 1
        }),
    decreases n,
{
    let digits = text::decimal(n);
    if n < 10 {
        assert(digits.drop_last() =~= Seq::empty());
        assert(number(digits.drop_last()) == 0);
        assert(digits.last() as int == 48 + n);
    } else {
        let front = text::decimal(n / 10);
        decimals_read_back(n / 10);
        assert(digits.drop_last() =~= front);
        assert(digits.last() as int == 48 + n % 10);
        assert forall|i: int| 0 <= i < digits.len() implies '0' <= #[trigger] digits[i] <= '9' by {
            if i < front.len() {
                assert(digits[i] == front[i]);
            }
        }
        assert(digits[0] == front[0]);
        assert(number(digits) == number(front) * 10 + n % 10);
    }
}

/// The decimal form of a negative number is a minus sign and the form of its
/// opposite.
pub proof fn signed_decimals_read_back(n: int)
    ensures
        n >= 0 ==> number(text::signed_decimal(n)) == n,
        n < 0 ==> text::signed_decimal(n)[0] == '-' && number(text::signed_decimal(n).drop_first())
            == -n,
{
    if n >= 0 {
        decimals_read_back(n as nat);
    } else {
        decimals_read_back((-n) as nat);
        assert(text::signed_decimal(n).drop_first() =~= text::decimal((-n) as nat));
    }
}

/// Names are ordered as their characters are: the first difference decides, and
/// a name comes before those that it begins.
pub proof fn first_difference_decides(a: Seq<char>, b: Seq<char>, k: int)
    requires
        0 <= k <= a.len(),
        k <= b.len(),
        forall|i: int| 0 <= i < k ==> #[trigger] a[i] == b[i],
        k < a.len() && k < b.len() ==> a[k] != b[k],
        k < a.len() || k < b.len(),
    ensures
        text::text_lt(a, b) == (k < b.len() && (k == a.len() || a[k] < b[k])),
    decreases k,
{
    reveal_with_fuel(text::text_lt, 1);
    if k > 0 {
        assert(a[0] == b[0]);
        let (c, d) = (a.drop_first(), b.drop_first());
        assert forall|i: int| 0 <= i < k - 1 implies #[trigger] c[i] == d[i] by {
            assert(a[i + 1] == b[i + 1]);
        }
        if k < a.len() && k < b.len() {
            assert(c[k - 1] == a[k] && d[k - 1] == b[k]);
        }
        first_difference_decides(c, d, k - 1);
    }
}

proof fn start_is_trimmed(s: Seq<char>) -> (a: int)
    ensures
        0 <= a <= s.len(),
        text::trimmed_start(s) == s.skip(a),
        forall|i: int| 0 <= i < a ==> text::is_whitespace(#[trigger] s[i]),
        a < s.len() ==> !text::is_whitespace(s[a]),
    decreases s.len(),
{
    if s.len() > 0 && text::is_whitespace(s[0]) {
        let rest = s.drop_first();
        let a = start_is_trimmed(rest);
        assert(rest.skip(a) =~= s.skip(a + 1));
        assert forall|i: int| 0 <= i < a + 1 implies text::is_whitespace(#[trigger] s[i]) by {
            if i > 0 {
                assert(s[i] == rest[i - 1]);
            }
        }
        a + 1
    } else {
        assert(s.skip(0) =~= s);
        0
    }
}

proof fn end_is_trimmed(s: Seq<char>) -> (b: int)
    ensures
        0 <= b <= s.len(),
        text::trimmed_end(s) == s.take(b),
        forall|i: int| b <= i < s.len() ==> text::is_whitespace(#[trigger] s[i]),
        b > 0 ==> !text::is_whitespace(s[b - 1]),
    decreases s.len(),
{
    if s.len() > 0 && text::is_whitespace(s.last()) {
        let rest = s.drop_last();
        let b = end_is_trimmed(rest);
        assert(rest.take(b) =~= s.take(b));
        assert forall|i: int| b <= i < s.len() implies text::is_whitespace(#[trigger] s[i]) by {
            if i < rest.len() {
                assert(s[i] == rest[i]);
            }
        }
        b
    } else {
        assert(s.take(s.len() as int) =~= s);
        s.len() as int
    }
}

/// Trimming a text takes the white space off both of its ends, all of it, and
/// nothing else.
pub proof fn what_trimming_takes(s: Seq<char>) -> (ends: (int, int))
    ensures
        0 <= ends.0 <= ends.1 <= s.len(),
        text::trimmed(s) == s.subrange(ends.0, ends.1),
        forall|i: int| 0 <= i < ends.0 ==> text::is_whitespace(#[trigger] s[i]),
        forall|i: int| ends.1 <= i < s.len() ==> text::is_whitespace(#[trigger] s[i]),
        ends.0 < ends.1 ==> !text::is_whitespace(s[ends.0]) && !text::is_whitespace(s[ends.1 - 1]),
{
    let a = start_is_trimmed(s);
    let t = s.skip(a);
    let b = end_is_trimmed(t);
    assert(t.take(b) =~= s.subrange(a, a + b));
    assert forall|i: int| a + b <= i < s.len() implies text::is_whitespace(#[trigger] s[i]) by {
        assert(s[i] == t[i - a]);
    }
    if b > 0 {
        assert(t[b - 1] == s[a + b - 1]);
    }
    (a, a + b)
}

/// White space is the space, the five control characters from tab to carriage
/// return, and 19 characters beyond ASCII; no letter, digit or punctuation mark
/// of ASCII is.
pub proof fn what_white_space_is(c: char)
    ensures
        text::is_whitespace(c) == seq![
            9u32, 10, 11, 12, 13, 32, 133, 160, 5760, 8192, 8193, 8194, 8195, 8196, 8197, 8198,
            8199, 8200, 8201, 8202, 8232, 8233, 8239, 8287, 12288,
        ].contains(c as u32),
        '!' <= c <= '~' ==> !text::is_whitespace(c),
{
    let all = seq![
        9u32, 10, 11, 12, 13, 32, 133, 160, 5760, 8192, 8193, 8194, 8195, 8196, 8197, 8198,
        8199, 8200, 8201, 8202, 8232, 8233, 8239, 8287, 12288,
    ];
    let n = c as u32;
    if text::is_whitespace(c) {
        let i = if n <= 13 {
            n - 9
        } else if n == 32 {
            5
        } else if n == 133 {
            6
        } else if n == 160 {
            7
        } else if n == 5760 {
            8
        } else if n <= 8202 {
            n - 8192 + 9
        } else if n == 8232 {
            20
        } else if n == 8233 {
            21
        } else if n == 8239 {
            22
        } else if n == 8287 {
            23
        } else {
            24
        };
        assert(all[i] == n);
    }
}

/// Two texts are equal but for case exactly if at each place they have the same
/// character, or one ASCII letter in both cases.
pub proof fn what_case_hides(a: Seq<char>, b: Seq<char>)
    ensures
        text::equal_ignoring_case(a, b) == {
            &&& a.len() == b.len()
            &&& forall|i: int|
                0 <= i < a.len() ==> {
                    ||| #[trigger] a[i] == b[i]
                    ||| 'a' <= a[i] <= 'z' && a[i] as int - 32 == b[i] as int
                    ||| 'A' <= a[i] <= 'Z' && a[i] as int + 32 == b[i] as int
                }
        },
{
    if a.len() == b.len() {
        assert forall|i: int| 0 <= i < a.len() implies (text::ascii_uppercase(#[trigger] a[i])
            == text::ascii_uppercase(b[i])) == {
            ||| a[i] == b[i]
            ||| 'a' <= a[i] <= 'z' && a[i] as int - 32 == b[i] as int
            ||| 'A' <= a[i] <= 'Z' && a[i] as int + 32 == b[i] as int
        } by {
            assert('a' <= a[i] <= 'z' ==> text::ascii_uppercase(a[i]) as int == a[i] as int - 32);
            assert('a' <= b[i] <= 'z' ==> text::ascii_uppercase(b[i]) as int == b[i] as int - 32);
        }
    }
}

/// A name that is looked up from a directory is the directory, one slash, and the
/// name. An absolute name is itself.
pub proof fn what_joining_gives(base: Seq<char>, name: Seq<char>)
    ensures
        name.len() > 0 && name[0] == '/' ==> paths::joined(base, name) == name,
        (name.len() == 0 || name[0] != '/') && base.len() > 0 && base.last() != '/'
            ==> paths::joined(base, name) == base.push('/') + name,
        (name.len() == 0 || name[0] != '/') && (base.len() == 0 || base.last() == '/')
            ==> paths::joined(base, name) == base + name,
{
    reveal_strlit("/");
    assert(base + "/"@ =~= base.push('/'));
}

/// Of two instants the one with fewer seconds is earlier, and within a second the
/// one with fewer nanoseconds; of any two one is not after the other, and only
/// one unless they are the same.
pub proof fn instants_are_ordered(a: UtcInstant, b: UtcInstant)
    ensures
        a.seconds < b.seconds ==> a.not_after(b) && !b.not_after(a),
        a.seconds == b.seconds && a.nanos < b.nanos ==> a.not_after(b) && !b.not_after(a),
        a.not_after(b) || b.not_after(a),
        a.not_after(b) && b.not_after(a) ==> a == b,
        a.not_after(a),
{
}

/// How long a run took: the whole milliseconds from its start to its end. It
/// cannot be told without an end, if either text is no time, or if the end lies a
/// millisecond or more before the start.
pub proof fn what_durations_mean(
    started_at: Seq<char>,
    finished_at: Seq<char>,
    start: UtcInstant,
    end: UtcInstant,
)
    requires
        start.in_calendar(),
        end.in_calendar(),
        time::parsed_rfc3339(started_at) == Ok::<_, Seq<char>>((start.seconds, start.nanos)),
        time::parsed_rfc3339(finished_at) == Ok::<_, Seq<char>>((end.seconds, end.nanos)),
    ensures
        ({
            let span = time::nanoseconds_between(start, end);
            match time::duration_ms(started_at, Some(finished_at)) {
                Some(ms) => {
                    &&& span > -1_000_000
                    &&& span >= 0 ==> ms * 1_000_000 <= span < (ms + 1) * 1_000_000
                    &&& span < 0 ==> ms == 0
                },
                None => span <= -1_000_000,
            }
        }),
        time::duration_ms(started_at, None) is None,
{
}

/// A run that did not end, or of which either time cannot be read, has no
/// duration.
pub proof fn unreadable_times_have_no_duration(started_at: Seq<char>, finished_at: Seq<char>)
    requires
        time::parsed_rfc3339(started_at) is Err || time::parsed_rfc3339(finished_at) is Err,
    ensures
        time::duration_ms(started_at, Some(finished_at)) is None,
{
}

} // verus!
