//! Deployment configuration.

use vstd::prelude::*;
use vstd::string::StrSliceExecFns;

verus! {

/// Everything read from the deployment's configuration file.
pub struct Config {
    pub session: SessionConfig,
    pub docker: DockerConfig,
}

/// How runners reach the container runtime and name what they create.
pub struct DockerConfig {
    pub host: String,
    pub image_label: String,
    pub name_prefix: String,
    pub container_name_prefix: String,
    pub languages: Vec<String>,
}

/// Session lifetimes, in seconds.
pub struct SessionConfig {
    pub expiration: u64,
    pub expired_clear_interval: u64,
}

/// Credentials read from the deployment's secrets file.
pub struct Secrets {
    pub google_auth: GoogleAuth,
}

pub struct GoogleAuth {
    pub client_id: String,
    pub client_secret: String,
}

/// Why a duration such as `"1d 12h"` could not be read.
#[derive(Clone, Copy, Debug, PartialEq, Eq, Structural)]
pub enum DurationError {
    /// A chunk holds no ASCII letter to start its unit.
    NoUnit,
    /// What precedes a chunk's unit is not a number of seconds' kind.
    BadNumber,
    /// A chunk's unit is none of s, m, h, d, w, M, y.
    BadUnit,
    /// The total does not fit in 64 bits of seconds.
    Overflow,
}

/// `char::is_whitespace`: the characters of Unicode's White_Space property.
pub open spec fn is_whitespace(c: char) -> bool {
    ('\u{9}' <= c <= '\u{d}') || c == ' ' || c == '\u{85}' || c == '\u{a0}' || c == '\u{1680}'
        || ('\u{2000}' <= c <= '\u{200a}') || c == '\u{2028}' || c == '\u{2029}' || c == '\u{202f}'
        || c == '\u{205f}' || c == '\u{3000}'
}

pub open spec fn is_ascii_alphabetic(c: char) -> bool {
    ('a' <= c <= 'z') || ('A' <= c <= 'Z')
}

pub open spec fn is_ascii_digit(c: char) -> bool {
    '0' <= c <= '9'
}

/// The whitespace-separated words of `s`, as `str::split_whitespace` gives them.
pub open spec fn words(s: Seq<char>) -> Seq<Seq<char>>
    decreases s.len(),
{
    if s.len() == 0 {
        Seq::empty()
    } else {
        let w = words(s.drop_last());
        if is_whitespace(s.last()) {
            w
        } else if s.len() >= 2 && !is_whitespace(s[s.len() - 2]) {
            w.drop_last().push(w.last().push(s.last()))
        } else {
            w.push(seq![s.last()])
        }
    }
}

/// Position of the first ASCII letter of `w`, or its length when it has none.
pub open spec fn first_alphabetic(w: Seq<char>) -> nat
    decreases w.len(),
{
    if w.len() == 0 {
        0
    } else if is_ascii_alphabetic(w[0]) {
        0
    } else {
        1 + first_alphabetic(w.skip(1))
    }
}

/// The value of a string of decimal digits.
pub open spec fn digits_value(d: Seq<char>) -> nat
    decreases d.len(),
{
    if d.len() == 0 {
        0
    } else {
        digits_value(d.drop_last()) * 10 + (d.last() as u32 - '0' as u32) as nat
    }
}

/// The digits of a numeral: what follows its optional `+` sign.
pub open spec fn numeral_digits(t: Seq<char>) -> Seq<char> {
    if t.len() > 0 && t[0] == '+' {
        t.skip(1)
    } else {
        t
    }
}

pub open spec fn all_digits(d: Seq<char>) -> bool {
    forall|i: int| 0 <= i < d.len() ==> is_ascii_digit(#[trigger] d[i])
}

/// What `str::parse::<u64>` reads: decimal digits after an optional `+`,
/// at least one, whose value fits in 64 bits.
pub open spec fn parse_u64(t: Seq<char>) -> Option<nat> {
    let d = numeral_digits(t);
    if d.len() > 0 && all_digits(d) && digits_value(d) <= u64::MAX {
        Some(digits_value(d))
    } else {
        None
    }
}

/// Seconds in one of a unit.
pub open spec fn unit_seconds(u: Seq<char>) -> Option<nat> {
    if u == seq!['s'] {
        Some(1)
    } else if u == seq!['m'] {
        Some(60)
    } else if u == seq!['h'] {
        Some(3600)
    } else if u == seq!['d'] {
        Some(86400)
    } else if u == seq!['w'] {
        Some(604800)
    } else if u == seq!['M'] {
        Some(2592000)
    } else if u == seq!['y'] {
        Some(31536000)
    } else {
        None
    }
}

/// The seconds a chunk such as `12h` stands for: a number, then a unit that
/// starts at the chunk's first ASCII letter.
pub open spec fn chunk_seconds(w: Seq<char>) -> Result<nat, DurationError> {
    let i = first_alphabetic(w);
    if i == w.len() {
        Err(DurationError::NoUnit)
    } else {
        match parse_u64(w.take(i as int)) {
            None => Err(DurationError::BadNumber),
            Some(n) => match unit_seconds(w.skip(i as int)) {
                None => Err(DurationError::BadUnit),
                Some(f) => Ok(n * f),
            },
        }
    }
}

/// The sum of the chunks' seconds, or the error of the first bad chunk.
pub open spec fn chunks_total(ws: Seq<Seq<char>>) -> Result<nat, DurationError>
    decreases ws.len(),
{
    if ws.len() == 0 {
        Ok(0)
    } else {
        match chunks_total(ws.drop_last()) {
            Err(e) => Err(e),
            Ok(a) => match chunk_seconds(ws.last()) {
                Err(e) => Err(e),
                Ok(b) => Ok(a + b),
            },
        }
    }
}

/// The seconds a duration text stands for: the sum of its whitespace
/// separated chunks, each a number and a unit.
pub open spec fn duration_seconds(s: Seq<char>) -> Result<nat, DurationError> {
    match chunks_total(words(s)) {
        Err(e) => Err(e),
        Ok(t) => if t <= u64::MAX {
            Ok(t)
        } else {
            Err(DurationError::Overflow)
        },
    }
}

fn is_whitespace_char(c: char) -> (r: bool)
    ensures
        r == is_whitespace(c),
{
    ('\u{9}' <= c && c <= '\u{d}') || c == ' ' || c == '\u{85}' || c == '\u{a0}' || c == '\u{1680}'
        || ('\u{2000}' <= c && c <= '\u{200a}') || c == '\u{2028}' || c == '\u{2029}' || c
        == '\u{202f}' || c == '\u{205f}' || c == '\u{3000}'
}

fn chars_of(s: &str) -> (v: Vec<char>)
    ensures
        v@ == s@,
{
    let n = s.unicode_len();
    let mut v: Vec<char> = Vec::new();
    let mut i: usize = 0;
    while i < n
        invariant
            n == s@.len(),
            i <= n,
            v@ == s@.take(i as int),
        decreases n - i,
    {
        v.push(s.get_char(i));
        i = i + 1;
        assert(v@ =~= s@.take(i as int));
    }
    assert(s@.take(n as int) =~= s@);
    v
}

/// The value of `w[start..end]` as `str::parse::<u64>` reads it.
fn parse_number(w: &Vec<char>, end: usize) -> (r: Option<u64>)
    requires
        end <= w@.len(),
    ensures
        match parse_u64(w@.take(end as int)) {
            Some(n) => r == Some(n as u64),
            None => r is None,
        },
{
    let ghost t = w@.take(end as int);
    let start: usize = if end > 0 && w[0] == '+' {
        1
    } else {
        0
    };
    let ghost d = t.skip(start as int);
    assert(d =~= numeral_digits(t));
    if start == end {
        return None;
    }
    let mut value: u64 = 0;
    let mut big = false;
    let mut j: usize = start;
    while j < end
        invariant
            start <= j <= end <= w@.len(),
            t == w@.take(end as int),
            d == t.skip(start as int),
            d == numeral_digits(t),
            forall|k: int| start <= k < j ==> is_ascii_digit(#[trigger] w@[k]),
            big <==> digits_value(d.take(j - start)) > u64::MAX,
            !big ==> value == digits_value(d.take(j - start)),
        decreases end - j,
    {
        let c = w[j];
        assert(d[j - start] == w@[j as int]);
        if !('0' <= c && c <= '9') {
            assert(!is_ascii_digit(d[j - start]));
            assert(!all_digits(d));
            return None;
        }
        let digit = (c as u32 - '0' as u32) as u64;
        let ghost prefix = d.take(j - start);
        let ghost next = d.take(j + 1 - start);
        assert(next.drop_last() =~= prefix);
        assert(next.last() == c);
        assert(digits_value(next) == digits_value(prefix) * 10 + digit);
        if !big {
            if value > (u64::MAX - digit) / 10 {
                big = true;
                assert(digits_value(next) > u64::MAX) by (nonlinear_arith)
                    requires
                        value > (u64::MAX - digit) / 10,
                        digits_value(next) == value * 10 + digit,
                ;
            } else {
                assert(value * 10 + digit <= u64::MAX) by (nonlinear_arith)
                    requires
                        value <= (u64::MAX - digit) / 10,
                        digit <= 9,
                ;
                value = value * 10 + digit;
            }
        } else {
            assert(digits_value(next) >= digits_value(prefix)) by (nonlinear_arith)
                requires
                    digits_value(next) == digits_value(prefix) * 10 + digit,
            ;
        }
        j = j + 1;
    }
    assert(d.take(end - start) =~= d);
    if big {
        None
    } else {
        Some(value)
    }
}

/// The seconds of one chunk, `None` standing for a count past 64 bits.
fn chunk_value(w: &Vec<char>) -> (r: Result<Option<u64>, DurationError>)
    ensures
        match chunk_seconds(w@) {
            Err(e) => r == Err::<Option<u64>, DurationError>(e),
            Ok(v) => r == Ok::<Option<u64>, DurationError>(
                if v <= u64::MAX {
                    Some(v as u64)
                } else {
                    None
                },
            ),
        },
{
    let n = w.len();
    let mut i: usize = 0;
    assert(w@.skip(0) =~= w@);
    while i < n && !(('a' <= w[i] && w[i] <= 'z') || ('A' <= w[i] && w[i] <= 'Z'))
        invariant
            n == w@.len(),
            i <= n,
            first_alphabetic(w@) == i + first_alphabetic(w@.skip(i as int)),
        decreases n - i,
    {
        assert(w@.skip(i as int).skip(1) =~= w@.skip(i + 1));
        i = i + 1;
    }
    if i == n {
        assert(w@.skip(n as int).len() == 0);
        return Err(DurationError::NoUnit);
    }
    let number = match parse_number(w, i) {
        None => {
            return Err(DurationError::BadNumber);
        },
        Some(v) => v,
    };
    let ghost unit = w@.skip(i as int);
    let factor: u64 = if n - i != 1 {
        assert(unit.len() != 1);
        return Err(DurationError::BadUnit);
    } else {
        let u = w[i];
        assert(unit =~= seq![u]);
        if u == 's' {
            1
        } else if u == 'm' {
            60
        } else if u == 'h' {
            3600
        } else if u == 'd' {
            86400
        } else if u == 'w' {
            604800
        } else if u == 'M' {
            2592000
        } else if u == 'y' {
            31536000
        } else {
            return Err(DurationError::BadUnit);
        }
    };
    Ok(number.checked_mul(factor))
}

/// The running sum of the chunks read so far.
struct Tally {
    first_error: Option<DurationError>,
    overflow: bool,
    total: u64,
}

/// `t` sums up the chunks `done`.
spec fn tallies(t: Tally, done: Seq<Seq<char>>) -> bool {
    match chunks_total(done) {
        Err(e) => t.first_error == Some(e),
        Ok(total) => t.first_error is None && (t.overflow <==> total > u64::MAX) && (!t.overflow
            ==> t.total == total),
    }
}

fn tally_chunk(t: Tally, word: &Vec<char>, Ghost(done): Ghost<Seq<Seq<char>>>) -> (r: Tally)
    requires
        tallies(t, done),
    ensures
        tallies(r, done.push(word@)),
{
    let ghost next = done.push(word@);
    assert(next.drop_last() =~= done);
    let Tally { first_error, overflow, total } = t;
    if first_error.is_some() {
        return Tally { first_error, overflow, total };
    }
    match chunk_value(word) {
        Err(e) => Tally { first_error: Some(e), overflow, total },
        Ok(v) => {
            if overflow {
                return Tally { first_error, overflow, total };
            }
            match v {
                Some(secs) => match total.checked_add(secs) {
                    Some(sum) => Tally { first_error, overflow, total: sum },
                    None => Tally { first_error, overflow: true, total },
                },
                None => Tally { first_error, overflow: true, total },
            }
        },
    }
}

/// Reads a duration such as `"1d 12h"` as seconds: whitespace-separated
/// chunks, each a number followed by one of the units s, m, h, d, w, M
/// (30 days) and y (365 days), added up.
pub fn parse_duration(s: &str) -> (r: Result<u64, DurationError>)
    ensures
        match duration_seconds(s@) {
            Ok(t) => r == Ok::<u64, DurationError>(t as u64),
            Err(e) => r == Err::<u64, DurationError>(e),
        },
{
    let text = chars_of(s);
    let n = text.len();
    let ghost done: Seq<Seq<char>> = Seq::empty();
    let mut word: Vec<char> = Vec::new();
    let mut tally = Tally { first_error: None, overflow: false, total: 0 };
    let mut i: usize = 0;
    while i < n
        invariant
            n == text@.len(),
            text@ == s@,
            i <= n,
            words(text@.take(i as int)) == if word@.len() > 0 {
                done.push(word@)
            } else {
                done
            },
            word@.len() > 0 <==> i >= 1 && !is_whitespace(text@[i - 1]),
            tallies(tally, done),
        decreases n - i,
    {
        let c = text[i];
        let ghost p = text@.take(i + 1);
        proof {
            assert(p.drop_last() =~= text@.take(i as int));
            assert(p.last() == c);
            if i >= 1 {
                assert(p[p.len() - 2] == text@[i - 1]);
            }
            if word@.len() > 0 {
                assert(done.push(word@).drop_last() =~= done);
            }
        }
        if is_whitespace_char(c) {
            if word.len() > 0 {
                tally = tally_chunk(tally, &word, Ghost(done));
                proof {
                    done = done.push(word@);
                }
                word = Vec::new();
            }
        } else {
            let ghost before = word@;
            word.push(c);
            proof {
                if before.len() == 0 {
                    assert(word@ =~= seq![c]);
                }
            }
        }
        i = i + 1;
    }
    assert(text@.take(n as int) =~= text@);
    if word.len() > 0 {
        tally = tally_chunk(tally, &word, Ghost(done));
        proof {
            done = done.push(word@);
        }
    }
    match tally.first_error {
        Some(e) => Err(e),
        None => if tally.overflow {
            Err(DurationError::Overflow)
        } else {
            Ok(tally.total)
        },
    }
}

} // verus!
