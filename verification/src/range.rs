//! Parsing and expansion of a textual port range of the form `start-end`.
//!
//! A range string holds exactly one `-`; each side must parse as an
//! unsigned 16-bit integer (an optional leading `+` followed by decimal
//! digits), and the start must not exceed the end. A valid range expands
//! to the ordered sequence of every port from start to end, inclusive.

use vstd::prelude::*;

verus! {

/// A validated inclusive port range: the target of one scan invocation.
#[derive(Clone, Copy, Debug, PartialEq, Eq, Structural)]
pub struct PortRange {
    pub start: u16,
    pub end: u16,
}

/// Why a range string was rejected; the scan aborts before any task exists.
#[derive(Clone, Copy, Debug, PartialEq, Eq, Structural)]
pub enum RangeError {
    /// The string does not hold exactly one `-` separator.
    InvalidFormat,
    /// The text before the `-` is not an unsigned 16-bit integer.
    InvalidStartPort,
    /// The text after the `-` is not an unsigned 16-bit integer.
    InvalidEndPort,
    /// Both endpoints parse but the start exceeds the end.
    InvalidRange,
}

impl RangeError {
    /// The diagnostic text shown to the user for this rejection.
    pub fn message(&self) -> (r: &'static str)
        ensures
            self is InvalidFormat ==> r@ == "Invalid range format. Use the format: start-end"@,
            self is InvalidStartPort ==> r@ == "Invalid start port."@,
            self is InvalidEndPort ==> r@ == "Invalid end port."@,
            self is InvalidRange ==> r@ == "Start port must be less than or equal to end port."@,
    {
        match self {
            RangeError::InvalidFormat => "Invalid range format. Use the format: start-end",
            RangeError::InvalidStartPort => "Invalid start port.",
            RangeError::InvalidEndPort => "Invalid end port.",
            RangeError::InvalidRange => "Start port must be less than or equal to end port.",
        }
    }
}

pub open spec fn is_dec_digit(c: char) -> bool {
    48 <= c as u32 && c as u32 <= 57
}

pub open spec fn digit_val(c: char) -> nat
    recommends
        is_dec_digit(c),
{
    (c as u32 - 48) as nat
}

pub open spec fn all_digits(s: Seq<char>) -> bool {
    forall|i: int| 0 <= i < s.len() ==> is_dec_digit(s[i])
}

/// The value of a digit string read as a decimal numeral.
pub open spec fn dec_value(s: Seq<char>) -> nat
    recommends
        all_digits(s),
    decreases s.len(),
{
    if s.len() == 0 {
        0
    } else {
        dec_value(s.drop_last()) * 10 + digit_val(s.last())
    }
}

/// The digits of a numeral text, with one optional leading `+` removed.
pub open spec fn digits_part(s: Seq<char>) -> Seq<char> {
    if s.len() > 0 && s[0] == '+' {
        s.skip(1)
    } else {
        s
    }
}

/// Whether a text parses as an unsigned 16-bit integer: an optional
/// leading `+`, then at least one decimal digit, with value at most 65535.
pub open spec fn u16_parses(s: Seq<char>) -> bool {
    &&& digits_part(s).len() > 0
    &&& all_digits(digits_part(s))
    &&& dec_value(digits_part(s)) <= 65535
}

pub open spec fn u16_value(s: Seq<char>) -> nat
    recommends
        u16_parses(s),
{
    dec_value(digits_part(s))
}

proof fn lemma_dec_value_take_step(s: Seq<char>, j: int)
    requires
        0 <= j < s.len(),
    ensures
        dec_value(s.take(j + 1)) == dec_value(s.take(j)) * 10 + digit_val(s[j]),
{
    assert(s.take(j + 1).drop_last() =~= s.take(j));
    assert(s.take(j + 1).last() == s[j]);
}

proof fn lemma_dec_value_take_mono(s: Seq<char>, i: int, j: int)
    requires
        0 <= i <= j <= s.len(),
    ensures
        dec_value(s.take(i)) <= dec_value(s.take(j)),
    decreases j - i,
{
    if i < j {
        lemma_dec_value_take_mono(s, i, j - 1);
        lemma_dec_value_take_step(s, j - 1);
    }
}

/// Parses a text as an unsigned 16-bit integer, as a range endpoint.
/// Returns `Some` exactly on the texts that `u16_parses` accepts.
pub fn parse_u16(s: &str) -> (r: Option<u16>)
    ensures
        u16_parses(s@) ==> r == Some(u16_value(s@) as u16),
        !u16_parses(s@) ==> r is None,
{
    let n = s.unicode_len();
    let offset: usize = if n > 0 && s.get_char(0) == '+' {
        1
    } else {
        0
    };
    proof {
        if offset == 0 {
            assert(s@.skip(0) =~= s@);
        }
        assert(digits_part(s@) == s@.skip(offset as int));
    }
    let ghost digits = digits_part(s@);
    if offset >= n {
        return None;
    }
    let mut acc: u32 = 0;
    let mut j: usize = offset;
    while j < n
        invariant
            offset <= j <= n,
            n == s@.len(),
            digits == s@.skip(offset as int),
            digits == digits_part(s@),
            digits.len() == n - offset,
            forall|k: int| 0 <= k < digits.len() ==> digits[k] == s@[k + offset],
            all_digits(digits.take(j - offset)),
            acc as nat == dec_value(digits.take(j - offset)),
            acc <= 65535,
        decreases n - j,
    {
        let c = s.get_char(j);
        let cv = c as u32;
        if cv < 48 || cv > 57 {
            assert(!is_dec_digit(digits[j - offset]));
            return None;
        }
        let d = cv - 48;
        let next = acc * 10 + d;
        proof {
            lemma_dec_value_take_step(digits, j - offset);
        }
        if next > 65535 {
            proof {
                lemma_dec_value_take_mono(digits, j + 1 - offset, digits.len() as int);
                assert(digits.take(digits.len() as int) =~= digits);
            }
            return None;
        }
        acc = next;
        j += 1;
    }
    proof {
        assert(digits.take(n - offset) =~= digits);
    }
    Some(acc as u16)
}

/// How many `-` separators a text holds.
pub open spec fn dash_count(s: Seq<char>) -> nat
    decreases s.len(),
{
    if s.len() == 0 {
        0
    } else {
        dash_count(s.drop_last()) + if s.last() == '-' {
            1nat
        } else {
            0nat
        }
    }
}

/// The position of the separator, meaningful when the text holds exactly one.
pub open spec fn the_dash(s: Seq<char>) -> int {
    choose|i: int| 0 <= i < s.len() && s[i] == '-'
}

/// The text before the separator.
pub open spec fn start_text(s: Seq<char>) -> Seq<char> {
    s.take(the_dash(s))
}

/// The text after the separator.
pub open spec fn end_text(s: Seq<char>) -> Seq<char> {
    s.skip(the_dash(s) + 1)
}

proof fn lemma_dash_count_take_step(s: Seq<char>, j: int)
    requires
        0 <= j < s.len(),
    ensures
        dash_count(s.take(j + 1)) == dash_count(s.take(j)) + if s[j] == '-' {
            1nat
        } else {
            0nat
        },
{
    assert(s.take(j + 1).drop_last() =~= s.take(j));
    assert(s.take(j + 1).last() == s[j]);
}

proof fn lemma_dash_count_take_mono(s: Seq<char>, i: int, j: int)
    requires
        0 <= i <= j <= s.len(),
    ensures
        dash_count(s.take(i)) <= dash_count(s.take(j)),
    decreases j - i,
{
    if i < j {
        lemma_dash_count_take_mono(s, i, j - 1);
        lemma_dash_count_take_step(s, j - 1);
    }
}

proof fn lemma_two_dashes(s: Seq<char>, a: int, b: int)
    requires
        0 <= a < b < s.len(),
        s[a] == '-',
        s[b] == '-',
    ensures
        dash_count(s) >= 2,
{
    lemma_dash_count_take_step(s, a);
    lemma_dash_count_take_mono(s, a + 1, b);
    lemma_dash_count_take_step(s, b);
    lemma_dash_count_take_mono(s, b + 1, s.len() as int);
    assert(s.take(s.len() as int) =~= s);
}

proof fn lemma_single_dash_at(s: Seq<char>, i: int)
    requires
        dash_count(s) == 1,
        0 <= i < s.len(),
        s[i] == '-',
    ensures
        the_dash(s) == i,
{
    assert forall|k: int| 0 <= k < s.len() && s[k] == '-' implies k == i by {
        if k < i {
            lemma_two_dashes(s, k, i);
        } else if k > i {
            lemma_two_dashes(s, i, k);
        }
    }
    assert(0 <= the_dash(s) < s.len() && s[the_dash(s)] == '-');
}

/// What `parse_range` returns for each input text.
pub open spec fn parse_range_spec(s: Seq<char>) -> Result<PortRange, RangeError> {
    if dash_count(s) != 1 {
        Err(RangeError::InvalidFormat)
    } else if !u16_parses(start_text(s)) {
        Err(RangeError::InvalidStartPort)
    } else if !u16_parses(end_text(s)) {
        Err(RangeError::InvalidEndPort)
    } else if u16_value(start_text(s)) > u16_value(end_text(s)) {
        Err(RangeError::InvalidRange)
    } else {
        Ok(
            PortRange {
                start: u16_value(start_text(s)) as u16,
                end: u16_value(end_text(s)) as u16,
            },
        )
    }
}

/// Parses a range string of the form `start-end` into a validated range.
/// Rejects a string without exactly one `-`, an endpoint that is not an
/// unsigned 16-bit integer, and a start above the end, in that order.
pub fn parse_range(s: &str) -> (r: Result<PortRange, RangeError>)
    ensures
        r == parse_range_spec(s@),
        r is Ok ==> r->Ok_0.wf(),
{
    let n = s.unicode_len();
    let mut j: usize = 0;
    let mut count: usize = 0;
    let mut dash: usize = 0;
    while j < n
        invariant
            j <= n,
            n == s@.len(),
            count == dash_count(s@.take(j as int)),
            count <= j,
            count >= 1 ==> dash < j && s@[dash as int] == '-',
        decreases n - j,
    {
        proof {
            lemma_dash_count_take_step(s@, j as int);
        }
        if s.get_char(j) == '-' {
            if count == 0 {
                dash = j;
            }
            count = count + 1;
        }
        j += 1;
    }
    proof {
        assert(s@.take(n as int) =~= s@);
    }
    if count != 1 {
        return Err(RangeError::InvalidFormat);
    }
    proof {
        lemma_single_dash_at(s@, dash as int);
        assert(s@.subrange(0, dash as int) =~= start_text(s@));
        assert(s@.subrange(dash + 1, n as int) =~= end_text(s@));
    }
    let start_str = s.substring_char(0, dash);
    let end_str = s.substring_char(dash + 1, n);
    let sp = match parse_u16(start_str) {
        Some(v) => v,
        None => {
            return Err(RangeError::InvalidStartPort);
        },
    };
    let ep = match parse_u16(end_str) {
        Some(v) => v,
        None => {
            return Err(RangeError::InvalidEndPort);
        },
    };
    if sp > ep {
        return Err(RangeError::InvalidRange);
    }
    Ok(PortRange { start: sp, end: ep })
}

/// The ordered ports of the inclusive range from `start` to `end`.
pub open spec fn port_seq(start: u16, end: u16) -> Seq<u16>
    recommends
        start <= end,
{
    Seq::new((end - start + 1) as nat, |i: int| (start + i) as u16)
}

impl PortRange {
    /// A range is well formed when its start does not exceed its end.
    pub open spec fn wf(self) -> bool {
        self.start <= self.end
    }

    /// How many ports the range covers.
    pub open spec fn count(self) -> nat
        recommends
            self.wf(),
    {
        (self.end - self.start + 1) as nat
    }

    /// Expands the range into the ordered list of every port it covers:
    /// one scan task is created for each entry, so the list's length is
    /// the number of tasks of the scan.
    pub fn ports(&self) -> (r: Vec<u16>)
        requires
            self.wf(),
        ensures
            r@ == port_seq(self.start, self.end),
            r@.len() == self.count(),
    {
        let mut r: Vec<u16> = Vec::new();
        let mut p: u32 = self.start as u32;
        while p <= self.end as u32
            invariant
                self.start <= p <= self.end + 1,
                r@.len() == p - self.start,
                forall|i: int| 0 <= i < r@.len() ==> r@[i] == self.start + i,
            decreases self.end + 1 - p,
        {
            r.push(p as u16);
            p += 1;
        }
        proof {
            assert(r@ =~= port_seq(self.start, self.end));
        }
        r
    }
}

/// How often a port occurs in a list of ports.
pub open spec fn occurrences(s: Seq<u16>, p: u16) -> nat
    decreases s.len(),
{
    if s.len() == 0 {
        0
    } else {
        occurrences(s.drop_last(), p) + if s.last() == p {
            1nat
        } else {
            0nat
        }
    }
}

/// Every port inside a valid range occurs exactly once in its expansion,
/// and no port outside it occurs at all: each port is probed exactly once.
pub proof fn lemma_each_port_once(start: u16, end: u16, p: u16)
    requires
        start <= end,
    ensures
        occurrences(port_seq(start, end), p) == if start <= p <= end {
            1nat
        } else {
            0nat
        },
    decreases end - start,
{
    if start == end {
        assert(port_seq(start, end).len() == 1);
        assert(port_seq(start, end).drop_last() =~= Seq::<u16>::empty());
        assert(port_seq(start, end).last() == start);
        assert(occurrences(Seq::<u16>::empty(), p) == 0);
        assert(occurrences(port_seq(start, end), p) == if p == start {
            1nat
        } else {
            0nat
        });
    } else {
        assert(port_seq(start, end).drop_last() =~= port_seq(start, (end - 1) as u16));
        assert(port_seq(start, end).last() == end);
        lemma_each_port_once(start, (end - 1) as u16, p);
        assert(occurrences(port_seq(start, end), p) == occurrences(
            port_seq(start, (end - 1) as u16),
            p,
        ) + if end == p {
            1nat
        } else {
            0nat
        });
    }
}

/// An inverted range is rejected before any task is created: whenever both
/// endpoints parse but the start exceeds the end, parsing yields the
/// range error and never a validated range.
pub proof fn lemma_inverted_range_rejected(s: Seq<char>)
    requires
        dash_count(s) == 1,
        u16_parses(start_text(s)),
        u16_parses(end_text(s)),
        u16_value(start_text(s)) > u16_value(end_text(s)),
    ensures
        parse_range_spec(s) == Err::<PortRange, RangeError>(RangeError::InvalidRange),
{
}

} // verus!
