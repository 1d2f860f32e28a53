//! User-idle detection from the text that `ioreg -c IOHIDSystem -r -d 4` prints.
//!
//! The shell runs `ioreg` (on macOS; elsewhere there is no source) and hands the
//! text over; this module finds the first line that mentions `"HIDIdleTime"`
//! and reads the nanosecond count that follows the key.

use vstd::prelude::*;
use crate::text::chars_of;

verus! {

/// Idle time below which the user counts as active, in seconds.
pub const ACTIVE_WITHIN_SECS: u64 = 60;

/// Nanoseconds per second.
pub const NANOS_PER_SEC: u64 = 1_000_000_000;

/// The registry key whose value is the nanoseconds since the last HID input.
pub open spec fn idle_key() -> Seq<char> {
    "\"HIDIdleTime\""@
}

/// Whether `c` is white space in the sense of Unicode's `White_Space` property.
pub open spec fn is_white_space(c: char) -> bool {
    ||| ('\t' as u32) <= (c as u32) <= ('\r' as u32)
    ||| c == ' '
    ||| c == '\u{85}'
    ||| c == '\u{A0}'
    ||| c == '\u{1680}'
    ||| 0x2000 <= (c as u32) <= 0x200A
    ||| c == '\u{2028}'
    ||| c == '\u{2029}'
    ||| c == '\u{202F}'
    ||| c == '\u{205F}'
    ||| c == '\u{3000}'
}

/// First position at or after `from` that holds a newline, or the end of `s`.
pub open spec fn line_end(s: Seq<char>, from: int) -> int
    decreases s.len() - from,
{
    if from >= s.len() {
        s.len() as int
    } else if s[from] == '\n' {
        from
    } else {
        line_end(s, from + 1)
    }
}

/// The end of a line lies between its start and the end of the text.
pub proof fn line_end_bounds(s: Seq<char>, from: int)
    requires
        0 <= from <= s.len(),
    ensures
        from <= line_end(s, from) <= s.len(),
        line_end(s, from) < s.len() ==> s[line_end(s, from)] == '\n',
        forall|i: int| from <= i < line_end(s, from) ==> s[i] != '\n',
    decreases s.len() - from,
{
    if from < s.len() && s[from] != '\n' {
        line_end_bounds(s, from + 1);
    }
}

/// Whether the idle key occurs in `s` starting at `at`.
pub open spec fn key_at(s: Seq<char>, at: int) -> bool {
    &&& 0 <= at
    &&& at + idle_key().len() <= s.len()
    &&& s.subrange(at, at + idle_key().len()) == idle_key()
}

/// First position in `from..end` at which the key occurs wholly before `end`.
pub open spec fn key_in_line(s: Seq<char>, from: int, end: int) -> Option<int>
    decreases end - from,
{
    if from + idle_key().len() > end {
        None
    } else if key_at(s, from) {
        Some(from)
    } else {
        proof {
            reveal_strlit("\"HIDIdleTime\"");
        }
        key_in_line(s, from + 1, end)
    }
}

/// First position in `from..end` whose character is neither a space nor `=`.
pub open spec fn skip_spaces_and_equals(s: Seq<char>, from: int, end: int) -> int
    decreases end - from,
{
    if from >= end {
        end
    } else if s[from] == ' ' || s[from] == '=' {
        skip_spaces_and_equals(s, from + 1, end)
    } else {
        from
    }
}

/// First position in `from..end` whose character is not white space.
pub open spec fn skip_white_space(s: Seq<char>, from: int, end: int) -> int
    decreases end - from,
{
    if from >= end {
        end
    } else if is_white_space(s[from]) {
        skip_white_space(s, from + 1, end)
    } else {
        from
    }
}

/// End of `start..end` once trailing white space is dropped.
pub open spec fn trim_end(s: Seq<char>, start: int, end: int) -> int
    decreases end - start,
{
    if end <= start {
        start
    } else if is_white_space(s[end - 1]) {
        trim_end(s, start, end - 1)
    } else {
        end
    }
}

/// Whether `c` is an ASCII decimal digit.
pub open spec fn is_digit(c: char) -> bool {
    ('0' as u32) <= (c as u32) <= ('9' as u32)
}

/// Value of the decimal digits in `start..end`.
pub open spec fn decimal_value(s: Seq<char>, start: int, end: int) -> nat
    decreases end - start,
{
    if end <= start {
        0
    } else {
        decimal_value(s, start, end - 1) * 10 + ((s[end - 1] as u32) - ('0' as u32)) as nat
    }
}

/// What `str::parse::<u64>` gives for the characters in `start..end`: an
/// optional `+`, then at least one decimal digit and nothing else, with a value
/// that fits in 64 bits.
pub open spec fn parse_u64(s: Seq<char>, start: int, end: int) -> Option<u64> {
    let digits = if start < end && s[start] == '+' {
        start + 1
    } else {
        start
    };
    if digits >= end {
        None
    } else if !(forall|i: int| digits <= i < end ==> is_digit(#[trigger] s[i])) {
        None
    } else if decimal_value(s, digits, end) > u64::MAX {
        None
    } else {
        Some(decimal_value(s, digits, end) as u64)
    }
}

/// Idle seconds read from the text after the key: leading spaces and `=` are
/// dropped, then surrounding white space, and the rest must parse as a count
/// of nanoseconds.
pub open spec fn idle_value(s: Seq<char>, after_key: int, end: int) -> Option<u64> {
    let start = skip_white_space(s, skip_spaces_and_equals(s, after_key, end), end);
    match parse_u64(s, start, trim_end(s, start, end)) {
        Some(nanos) => Some(nanos / NANOS_PER_SEC),
        None => None,
    }
}

/// Idle seconds from the first line at or after `from` that holds the key; the
/// search stops at that line whether or not its value parses. Lines end at
/// `\n`; a `\r` before it stays in the line, where the final trim removes it
/// like any other white space, so CRLF text reads the same.
pub open spec fn idle_from(s: Seq<char>, from: int) -> Option<u64>
    decreases s.len() - from,
{
    if from < 0 || from > s.len() {
        None
    } else {
        let end = line_end(s, from);
        match key_in_line(s, from, end) {
            Some(at) => idle_value(s, at + idle_key().len(), end),
            None => if end < s.len() {
                proof {
                    line_end_bounds(s, from);
                }
                idle_from(s, end + 1)
            } else {
                None
            },
        }
    }
}

fn white_space(c: char) -> (white: bool)
    ensures
        white == is_white_space(c),
{
    let code = c as u32;
    (('\t' as u32) <= code && code <= ('\r' as u32)) || c == ' ' || c == '\u{85}' || c == '\u{A0}'
        || c == '\u{1680}' || (0x2000 <= code && code <= 0x200A) || c == '\u{2028}' || c
        == '\u{2029}' || c == '\u{202F}' || c == '\u{205F}' || c == '\u{3000}'
}

fn find_line_end(s: &Vec<char>, from: usize) -> (end: usize)
    requires
        from <= s.len(),
    ensures
        end == line_end(s@, from as int),
{
    let mut i = from;
    while i < s.len() && s[i] != '\n'
        invariant
            from <= i <= s.len(),
            line_end(s@, i as int) == line_end(s@, from as int),
        decreases s.len() - i,
    {
        i += 1;
    }
    i
}

fn key_matches_at(s: &Vec<char>, key: &Vec<char>, at: usize) -> (found: bool)
    requires
        key@ == idle_key(),
        at + key.len() <= s.len(),
    ensures
        found == key_at(s@, at as int),
{
    let mut k: usize = 0;
    while k < key.len()
        invariant
            key@ == idle_key(),
            at + key.len() <= s.len(),
            k <= key.len(),
            forall|j: int| 0 <= j < k ==> s@[at + j] == key@[j],
        decreases key.len() - k,
    {
        if s[at + k] != key[k] {
            assert(s@.subrange(at as int, at + key.len())[k as int] != idle_key()[k as int]);
            return false;
        }
        k += 1;
    }
    assert(s@.subrange(at as int, at + key.len()) =~= idle_key());
    true
}

fn find_key(s: &Vec<char>, key: &Vec<char>, from: usize, end: usize) -> (found: Option<usize>)
    requires
        key@ == idle_key(),
        from <= end <= s.len(),
    ensures
        found matches Some(at) ==> key_in_line(s@, from as int, end as int) == Some(at as int)
            && at + key.len() <= end,
        found is None ==> key_in_line(s@, from as int, end as int) is None,
{
    proof {
        reveal_strlit("\"HIDIdleTime\"");
    }
    let mut p = from;
    while p < end && key.len() <= end - p
        invariant
            key@ == idle_key(),
            key.len() == 13,
            from <= p <= end,
            end <= s.len(),
            key_in_line(s@, p as int, end as int) == key_in_line(s@, from as int, end as int),
        decreases end - p,
    {
        if key_matches_at(s, key, p) {
            return Some(p);
        }
        p += 1;
    }
    None
}

fn skip_spaces_and_equals_exec(s: &Vec<char>, from: usize, end: usize) -> (at: usize)
    requires
        from <= end <= s.len(),
    ensures
        at == skip_spaces_and_equals(s@, from as int, end as int),
        from <= at <= end,
{
    let mut i = from;
    while i < end && (s[i] == ' ' || s[i] == '=')
        invariant
            from <= i <= end,
            end <= s.len(),
            skip_spaces_and_equals(s@, i as int, end as int) == skip_spaces_and_equals(
                s@,
                from as int,
                end as int,
            ),
        decreases end - i,
    {
        i += 1;
    }
    i
}

fn skip_white_space_exec(s: &Vec<char>, from: usize, end: usize) -> (at: usize)
    requires
        from <= end <= s.len(),
    ensures
        at == skip_white_space(s@, from as int, end as int),
        from <= at <= end,
{
    let mut i = from;
    while i < end && white_space(s[i])
        invariant
            from <= i <= end,
            end <= s.len(),
            skip_white_space(s@, i as int, end as int) == skip_white_space(
                s@,
                from as int,
                end as int,
            ),
        decreases end - i,
    {
        i += 1;
    }
    i
}

fn trim_end_exec(s: &Vec<char>, start: usize, end: usize) -> (trimmed: usize)
    requires
        start <= end <= s.len(),
    ensures
        trimmed == trim_end(s@, start as int, end as int),
        start <= trimmed <= end,
{
    let mut j = end;
    while j > start && white_space(s[j - 1])
        invariant
            start <= j <= end,
            end <= s.len(),
            trim_end(s@, start as int, j as int) == trim_end(s@, start as int, end as int),
        decreases j,
    {
        j -= 1;
    }
    j
}

proof fn decimal_value_grows(s: Seq<char>, start: int, mid: int, end: int)
    requires
        start <= mid <= end,
    ensures
        decimal_value(s, start, mid) <= decimal_value(s, start, end),
    decreases end - mid,
{
    if mid < end {
        decimal_value_grows(s, start, mid, end - 1);
    }
}

fn parse_u64_exec(s: &Vec<char>, start: usize, end: usize) -> (value: Option<u64>)
    requires
        start <= end <= s.len(),
    ensures
        value == parse_u64(s@, start as int, end as int),
{
    let digits = if start < end && s[start] == '+' {
        start + 1
    } else {
        start
    };
    if digits >= end {
        return None;
    }
    let mut i = digits;
    let mut acc: u64 = 0;
    while i < end
        invariant
            digits <= i <= end,
            end <= s.len(),
            start <= end,
            digits < end,
            digits == (if start < end && s@[start as int] == '+' {
                start + 1
            } else {
                start as int
            }),
            acc == decimal_value(s@, digits as int, i as int),
            forall|k: int| digits <= k < i ==> is_digit(#[trigger] s@[k]),
        decreases end - i,
    {
        let c = s[i];
        let code = #[verifier::truncate] (c as u32);
        if !(('0' as u32) <= code && code <= ('9' as u32)) {
            assert(!is_digit(s@[i as int]));
            assert(!(forall|k: int| digits <= k < end ==> is_digit(#[trigger] s@[k])));
            return None;
        }
        let digit = (code - ('0' as u32)) as u64;
        assert(decimal_value(s@, digits as int, i + 1) == acc * 10 + digit);
        if acc > (u64::MAX - digit) / 10 {
            proof {
                assert(acc * 10 + digit > u64::MAX) by (nonlinear_arith)
                    requires
                        acc > (u64::MAX - digit) / 10,
                        digit <= 9,
                ;
                decimal_value_grows(s@, digits as int, i + 1, end as int);
            }
            return None;
        }
        assert(acc * 10 + digit <= u64::MAX) by (nonlinear_arith)
            requires
                acc <= (u64::MAX - digit) / 10,
                digit <= 9,
        ;
        acc = acc * 10 + digit;
        i += 1;
    }
    Some(acc)
}

/// Seconds since the user last touched the keyboard or mouse, read from the
/// text of an `ioreg -c IOHIDSystem -r -d 4` report; `None` when no line holds the key or its value
/// does not parse.
pub fn platform_user_idle_secs(report: &str) -> (secs: Option<u64>)
    ensures
        secs == idle_from(report@, 0),
{
    let s = chars_of(report);
    let key = chars_of("\"HIDIdleTime\"");
    let mut from: usize = 0;
    loop
        invariant
            from <= s.len(),
            s@ == report@,
            key@ == idle_key(),
            idle_from(s@, from as int) == idle_from(s@, 0),
        decreases s.len() - from,
    {
        let end = find_line_end(&s, from);
        proof {
            line_end_bounds(s@, from as int);
        }
        match find_key(&s, &key, from, end) {
            Some(at) => {
                let after_key = at + key.len();
                let lead = skip_spaces_and_equals_exec(&s, after_key, end);
                let start = skip_white_space_exec(&s, lead, end);
                let stop = trim_end_exec(&s, start, end);
                assert(idle_from(s@, from as int) == idle_value(s@, at + idle_key().len(), end as int));
                return match parse_u64_exec(&s, start, stop) {
                    Some(nanos) => Some(nanos / NANOS_PER_SEC),
                    None => None,
                };
            },
            None => {
                if end < s.len() {
                    from = end + 1;
                } else {
                    assert(idle_from(s@, from as int) is None);
                    return None;
                }
            },
        }
    }
}

/// Seconds since the last keyboard or mouse input, given the text that `ioreg`
/// printed, or `None` when there was no report (no query on this platform, or
/// the query failed) or the report holds no readable idle time.
pub fn user_idle_secs(ioreg_report: Option<&str>) -> (secs: Option<u64>)
    ensures
        secs == match ioreg_report {
            Some(report) => idle_from(report@, 0),
            None => None,
        },
{
    match ioreg_report {
        Some(report) => platform_user_idle_secs(report),
        None => None,
    }
}

/// One bit of state about whether the user is at the machine right now. The
/// shell passes it to the pressure state machine on every tick.
#[derive(Clone, Copy, Debug)]
pub struct ActivitySignal {
    pub user_is_active: bool,
}

impl Default for ActivitySignal {
    fn default() -> (signal: Self)
        ensures
            !signal.user_is_active,
    {
        ActivitySignal { user_is_active: false }
    }
}

/// The activity signal for a measured idle time: the user counts as active when
/// an idle time is known and is under a minute.
pub fn activity_signal(idle_secs: Option<u64>) -> (signal: ActivitySignal)
    ensures
        signal.user_is_active == (idle_secs matches Some(secs) && secs < ACTIVE_WITHIN_SECS),
{
    ActivitySignal {
        user_is_active: match idle_secs {
            Some(secs) => secs < ACTIVE_WITHIN_SECS,
            None => false,
        },
    }
}

/// The decimal digit character for `d` in `0..10`.
pub open spec fn digit_char(d: int) -> char {
    if d == 0 {
        '0'
    } else if d == 1 {
        '1'
    } else if d == 2 {
        '2'
    } else if d == 3 {
        '3'
    } else if d == 4 {
        '4'
    } else if d == 5 {
        '5'
    } else if d == 6 {
        '6'
    } else if d == 7 {
        '7'
    } else if d == 8 {
        '8'
    } else {
        '9'
    }
}

/// `n` written in decimal, without sign or leading zeros.
pub open spec fn decimal_text(n: nat) -> Seq<char>
    decreases n,
{
    if n < 10 {
        seq![digit_char(n as int)]
    } else {
        decimal_text(n / 10).push(digit_char((n % 10) as int))
    }
}

proof fn decimal_value_local(s: Seq<char>, t: Seq<char>, start: int, end: int)
    requires
        0 <= start <= end <= s.len(),
        end <= t.len(),
        forall|i: int| start <= i < end ==> s[i] == t[i],
    ensures
        decimal_value(s, start, end) == decimal_value(t, start, end),
    decreases end - start,
{
    if start < end {
        decimal_value_local(s, t, start, end - 1);
    }
}

proof fn decimal_value_shift(a: Seq<char>, b: Seq<char>, k: int)
    requires
        0 <= k <= b.len(),
    ensures
        decimal_value(a + b, a.len() as int, a.len() + k) == decimal_value(b, 0, k),
    decreases k,
{
    if k > 0 {
        decimal_value_shift(a, b, k - 1);
        assert((a + b)[a.len() + k - 1] == b[k - 1]);
    }
}

proof fn digit_char_value(d: int)
    requires
        0 <= d < 10,
    ensures
        is_digit(digit_char(d)),
        (digit_char(d) as u32) - ('0' as u32) == d,
{
}

proof fn decimal_text_reads_back(n: nat)
    ensures
        decimal_text(n).len() >= 1,
        forall|i: int| 0 <= i < decimal_text(n).len() ==> is_digit(#[trigger] decimal_text(n)[i]),
        decimal_value(decimal_text(n), 0, decimal_text(n).len() as int) == n,
    decreases n,
{
    if n >= 10 {
        let prefix = decimal_text(n / 10);
        decimal_text_reads_back(n / 10);
        let whole = decimal_text(n);
        digit_char_value((n % 10) as int);
        assert(whole == prefix.push(digit_char((n % 10) as int)));
        decimal_value_local(whole, prefix, 0, prefix.len() as int);
        let last = whole.len() - 1;
        assert(whole[last] == digit_char((n % 10) as int));
        assert(decimal_value(whole, 0, whole.len() as int) == decimal_value(whole, 0, last) * 10
            + ((whole[last] as u32) - ('0' as u32)) as nat);
        assert(n == (n / 10) * 10 + n % 10);
        assert forall|i: int| 0 <= i < whole.len() implies is_digit(#[trigger] whole[i]) by {
            if i < prefix.len() {
                assert(whole[i] == prefix[i]);
            }
        }
    } else {
        digit_char_value(n as int);
        let whole = decimal_text(n);
        assert(decimal_value(whole, 0, 1) == decimal_value(whole, 0, 0) * 10 + ((whole[0] as u32)
            - ('0' as u32)) as nat);
    }
}

/// The idle time written after the key is read back: a report line holding
/// `"HIDIdleTime" = ` followed by any nanosecond count that fits in 64 bits
/// gives that count in whole seconds.
pub proof fn written_idle_time_reads_back(nanos: u64)
    ensures
        idle_from(idle_key() + seq![' ', '=', ' '] + decimal_text(nanos as nat), 0) == Some(
            nanos / NANOS_PER_SEC,
        ),
{
    reveal_strlit("\"HIDIdleTime\"");
    let key = idle_key();
    let digits = decimal_text(nanos as nat);
    let head = key + seq![' ', '=', ' '];
    let s = head + digits;
    let len = s.len() as int;
    decimal_text_reads_back(nanos as nat);
    assert(key.len() == 13);
    assert(head.len() == 16);
    assert forall|i: int| 0 <= i < len implies s[i] != '\n' by {
        if i >= 16 {
            assert(s[i] == digits[i - 16]);
            assert(is_digit(digits[i - 16]));
        }
    }
    line_end_without_newline(s, 0);
    assert(s.subrange(0, 13) == key);
    assert(key_at(s, 0));
    assert(key_in_line(s, 0, len) == Some(0int));
    assert(s[13] == ' ' && s[14] == '=' && s[15] == ' ');
    assert(s[16] == digits[0]);
    assert(is_digit(s[16]));
    assert(skip_spaces_and_equals(s, 16, len) == 16);
    assert(skip_spaces_and_equals(s, 15, len) == 16);
    assert(skip_spaces_and_equals(s, 14, len) == 16);
    assert(skip_spaces_and_equals(s, 13, len) == 16);
    assert(skip_white_space(s, 16, len) == 16);
    assert(s[len - 1] == digits[digits.len() - 1]);
    assert(is_digit(s[len - 1]));
    assert(trim_end(s, 16, len) == len);
    assert forall|i: int| 16 <= i < len implies is_digit(#[trigger] s[i]) by {
        assert(s[i] == digits[i - 16]);
    }
    decimal_value_shift(head, digits, digits.len() as int);
    assert(decimal_value(s, 16, len) == nanos);
}

proof fn line_end_without_newline(s: Seq<char>, from: int)
    requires
        0 <= from <= s.len(),
        forall|i: int| 0 <= i < s.len() ==> s[i] != '\n',
    ensures
        line_end(s, from) == s.len(),
    decreases s.len() - from,
{
    if from < s.len() {
        line_end_without_newline(s, from + 1);
    }
}

} // verus!
