use vstd::prelude::*;
use vstd::string::*;

verus! {

/// Unicode white space, as `char::is_whitespace` defines it.
pub open spec fn is_whitespace(c: char) -> bool {
    let u = c as u32;
    (9 <= u && u <= 13) || u == 0x20 || u == 0x85 || u == 0xa0 || u == 0x1680 || (0x2000 <= u
        && u <= 0x200a) || u == 0x2028 || u == 0x2029 || u == 0x202f || u == 0x205f || u == 0x3000
}

/// Index of the first non-white-space character at or after `i`.
pub open spec fn lead_end(s: Seq<char>, i: int) -> int
    decreases s.len() - i,
{
    if 0 <= i < s.len() && is_whitespace(s[i]) {
        lead_end(s, i + 1)
    } else {
        i
    }
}

/// End of `s[lo..j]` once white space at its end is dropped.
pub open spec fn trail_end(s: Seq<char>, lo: int, j: int) -> int
    decreases j - lo,
{
    if lo < j <= s.len() && is_whitespace(s[j - 1]) {
        trail_end(s, lo, j - 1)
    } else {
        j
    }
}

/// `s` without leading and trailing white space.
pub open spec fn trim(s: Seq<char>) -> Seq<char> {
    let a = lead_end(s, 0);
    s.subrange(a, trail_end(s, a, s.len() as int))
}

pub open spec fn is_digit(c: char) -> bool {
    '0' <= c && c <= '9'
}

pub open spec fn all_digits(s: Seq<char>) -> bool {
    forall|i: int| 0 <= i < s.len() ==> is_digit(#[trigger] s[i])
}

/// The number that a string of decimal digits denotes.
pub open spec fn digits_value(s: Seq<char>) -> nat
    decreases s.len(),
{
    if s.len() == 0 {
        0
    } else {
        digits_value(s.drop_last()) * 10 + (s.last() as u32 - '0' as u32) as nat
    }
}

/// Decimal text to `u32` as `str::parse` reads it: an optional `+`, then at
/// least one digit, and a value that fits.
pub open spec fn parse_u32(s: Seq<char>) -> Option<u32> {
    let d = if s.len() > 0 && s[0] == '+' {
        s.drop_first()
    } else {
        s
    };
    if d.len() > 0 && all_digits(d) && digits_value(d) <= u32::MAX {
        Some(digits_value(d) as u32)
    } else {
        None
    }
}

/// A console command.
#[derive(Clone, Copy, Debug, PartialEq, Eq, Structural)]
pub enum Command {
    Help,
    Status,
    Tasks,
    Heap,
    Runtime,
    Realtime,
    Reset,
    /// `led1=<n>` with a valid number.
    SetLed1Period(u32),
    /// `led1=` followed by something that is not a number.
    InvalidLed1Period,
    NotFound,
}

/// The command that a typed line denotes. A line that starts with `led1=`
/// sets the LED period from the rest; any other line is matched, trimmed,
/// against the command words.
pub open spec fn command_of(line: Seq<char>) -> Command {
    if line.len() >= 5 && line.subrange(0, 5) == "led1="@ {
        match parse_u32(trim(line.subrange(5, line.len() as int))) {
            Some(v) => Command::SetLed1Period(v),
            None => Command::InvalidLed1Period,
        }
    } else {
        let t = trim(line);
        if t == "help"@ {
            Command::Help
        } else if t == "status"@ {
            Command::Status
        } else if t == "tasks"@ {
            Command::Tasks
        } else if t == "heap"@ {
            Command::Heap
        } else if t == "runtime"@ {
            Command::Runtime
        } else if t == "realtime"@ {
            Command::Realtime
        } else if t == "reset"@ {
            Command::Reset
        } else {
            Command::NotFound
        }
    }
}

fn is_ws(c: char) -> (r: bool)
    ensures
        r == is_whitespace(c),
{
    let u = c as u32;
    (9 <= u && u <= 13) || u == 0x20 || u == 0x85 || u == 0xa0 || u == 0x1680 || (0x2000 <= u
        && u <= 0x200a) || u == 0x2028 || u == 0x2029 || u == 0x202f || u == 0x205f || u == 0x3000
}

/// The characters of `s` from position `from` on.
fn chars_from(s: &str, from: usize) -> (r: Vec<char>)
    requires
        from <= s@.len(),
    ensures
        r@ == s@.subrange(from as int, s@.len() as int),
{
    let n = s.unicode_len();
    let mut r: Vec<char> = Vec::new();
    let mut i: usize = from;
    while i < n
        invariant
            n == s@.len(),
            from <= i <= n,
            r@ == s@.subrange(from as int, i as int),
        decreases n - i,
    {
        r.push(s.get_char(i));
        i = i + 1;
        assert(r@ =~= s@.subrange(from as int, i as int));
    }
    r
}

/// Bounds of `v` once leading and trailing white space are dropped.
fn trim_bounds(v: &Vec<char>) -> (r: (usize, usize))
    ensures
        r.0 <= r.1 <= v@.len(),
        v@.subrange(r.0 as int, r.1 as int) == trim(v@),
{
    let n = v.len();
    let mut a: usize = 0;
    while a < n && is_ws(v[a])
        invariant
            n == v@.len(),
            a <= n,
            lead_end(v@, a as int) == lead_end(v@, 0),
        decreases n - a,
    {
        a = a + 1;
    }
    let mut b: usize = n;
    while b > a && is_ws(v[b - 1])
        invariant
            n == v@.len(),
            a <= b <= n,
            lead_end(v@, 0) == a,
            trail_end(v@, a as int, b as int) == trail_end(v@, a as int, n as int),
        decreases b,
    {
        b = b - 1;
    }
    (a, b)
}

/// Whether `v[a..b]` is the text `lit`.
fn range_equals(v: &Vec<char>, a: usize, b: usize, lit: &str) -> (r: bool)
    requires
        a <= b <= v@.len(),
    ensures
        r == (v@.subrange(a as int, b as int) == lit@),
{
    let n = lit.unicode_len();
    if b - a != n {
        return false;
    }
    let mut i: usize = 0;
    while i < n
        invariant
            n == lit@.len(),
            b - a == n,
            a <= b <= v@.len(),
            0 <= i <= n,
            forall|j: int| 0 <= j < i ==> v@[a + j] == lit@[j],
        decreases n - i,
    {
        if v[a + i] != lit.get_char(i) {
            assert(v@.subrange(a as int, b as int)[i as int] != lit@[i as int]);
            return false;
        }
        i = i + 1;
    }
    assert(v@.subrange(a as int, b as int) =~= lit@);
    true
}

proof fn lemma_value_prefix_le(s: Seq<char>, i: int)
    requires
        0 <= i <= s.len(),
        all_digits(s),
    ensures
        digits_value(s.subrange(0, i)) <= digits_value(s),
    decreases s.len(),
{
    if i < s.len() {
        let t = s.drop_last();
        assert(all_digits(t)) by {
            assert forall|j: int| 0 <= j < t.len() implies is_digit(#[trigger] t[j]) by {
                assert(t[j] == s[j]);
            }
        }
        lemma_value_prefix_le(t, i);
        assert(t.subrange(0, i) =~= s.subrange(0, i));
    } else {
        assert(s.subrange(0, i) =~= s);
    }
}

/// Reads `v[a..b]` as a `u32`, as `parse_u32` describes.
fn parse_range(v: &Vec<char>, a: usize, b: usize) -> (r: Option<u32>)
    requires
        a <= b <= v@.len(),
    ensures
        r == parse_u32(v@.subrange(a as int, b as int)),
{
    let ghost s = v@.subrange(a as int, b as int);
    let mut start: usize = a;
    if start < b && v[start] == '+' {
        start = start + 1;
    }
    let ghost d = v@.subrange(start as int, b as int);
    assert(d =~= (if s.len() > 0 && s[0] == '+' {
        s.drop_first()
    } else {
        s
    }));
    if start == b {
        return None;
    }
    let mut acc: u64 = 0;
    let mut i: usize = start;
    while i < b
        invariant
            a <= start <= i <= b <= v@.len(),
            d == v@.subrange(start as int, b as int),
            d == (if s.len() > 0 && s[0] == '+' {
                s.drop_first()
            } else {
                s
            }),
            s == v@.subrange(a as int, b as int),
            start < b,
            acc <= u32::MAX,
            acc == digits_value(v@.subrange(start as int, i as int)),
            all_digits(v@.subrange(start as int, i as int)),
        decreases b - i,
    {
        let c = v[i];
        if !('0' <= c && c <= '9') {
            assert(d[i - start] == c);
            return None;
        }
        let ghost pre = v@.subrange(start as int, i as int + 1);
        assert(pre.drop_last() =~= v@.subrange(start as int, i as int));
        assert(all_digits(pre)) by {
            assert forall|j: int| 0 <= j < pre.len() implies is_digit(#[trigger] pre[j]) by {
                if j < pre.len() - 1 {
                    assert(pre[j] == v@.subrange(start as int, i as int)[j]);
                }
            }
        }
        acc = acc * 10 + (c as u64 - '0' as u64);
        i = i + 1;
        if acc > u32::MAX as u64 {
            proof {
                if all_digits(d) {
                    lemma_value_prefix_le(d, (i - start) as int);
                    assert(d.subrange(0, (i - start) as int) =~= pre);
                }
            }
            return None;
        }
    }
    assert(v@.subrange(start as int, i as int) =~= d);
    Some(acc as u32)
}

/// Reads a typed line as a command.
pub fn parse_command(line: &str) -> (r: Command)
    ensures
        r == command_of(line@),
{
    let v = chars_from(line, 0);
    assert(v@ =~= line@);
    let n = v.len();
    if n >= 5 && range_equals(&v, 0, 5, "led1=") {
        let rest = chars_from(line, 5);
        let (a, b) = trim_bounds(&rest);
        match parse_range(&rest, a, b) {
            Some(value) => Command::SetLed1Period(value),
            None => Command::InvalidLed1Period,
        }
    } else {
        let (a, b) = trim_bounds(&v);
        if range_equals(&v, a, b, "help") {
            Command::Help
        } else if range_equals(&v, a, b, "status") {
            Command::Status
        } else if range_equals(&v, a, b, "tasks") {
            Command::Tasks
        } else if range_equals(&v, a, b, "heap") {
            Command::Heap
        } else if range_equals(&v, a, b, "runtime") {
            Command::Runtime
        } else if range_equals(&v, a, b, "realtime") {
            Command::Realtime
        } else if range_equals(&v, a, b, "reset") {
            Command::Reset
        } else {
            Command::NotFound
        }
    }
}

} // verus!
