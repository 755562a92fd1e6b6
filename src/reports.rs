//! Reading what a server or the control program reports about a server's
//! process.

use vstd::prelude::*;
use vstd::string::*;

use crate::decimal::{all_decimal_digits, digits_value, is_decimal_digit, parse_digits};
use crate::pg_ctl::{Error, ErrorView};
use crate::text::{chars_of, matches_at, occurs_at};

verus! {

/// The number that a line names, read as `u32::from_str` reads it: an
/// optional `+`, then decimal digits.
pub open spec fn pid_line_value(line: Seq<char>) -> Option<u32> {
    let digits = if line.len() > 0 && line[0] == '+' {
        line.drop_first()
    } else {
        line
    };
    if digits.len() > 0 && all_decimal_digits(digits) && digits_value(digits) <= u32::MAX {
        Some(digits_value(digits) as u32)
    } else {
        None
    }
}

pub open spec fn is_first_newline(s: Seq<char>, k: int) -> bool {
    &&& 0 <= k < s.len()
    &&& s[k] == '\n'
    &&& forall|j: int| 0 <= j < k ==> s[j] != '\n'
}

/// The process id that a server's marker file names on its first line; a
/// file with no complete first line names none.
pub open spec fn pid_of(content: Seq<char>) -> Option<u32> {
    if exists|k: int| is_first_newline(content, k) {
        pid_line_value(content.take(choose|k: int| is_first_newline(content, k)))
    } else {
        None
    }
}

/// Reads the process id from the content of a server's marker file.
pub fn parse_pid(content: &str) -> (r: Option<u32>)
    ensures
        r == pid_of(content@),
{
    let t = chars_of(content);
    let mut k: usize = 0;
    while k < t.len() && t[k] != '\n'
        invariant
            k <= t@.len(),
            t@ == content@,
            forall|j: int| 0 <= j < k ==> t@[j] != '\n',
        decreases t@.len() - k,
    {
        k = k + 1;
    }
    if k == t.len() {
        assert(!exists|k: int| is_first_newline(content@, k));
        return None;
    }
    assert(is_first_newline(content@, k as int));
    assert forall|k2: int| is_first_newline(content@, k2) implies k2 == k by {
        if k2 < k {
            assert(t@[k2] != '\n');
        } else if k2 > k {
            assert(content@[k as int] != '\n');
        }
    }
    let ghost line = content@.take(k as int);
    let start: usize = if k > 0 && t[0] == '+' {
        1
    } else {
        0
    };
    proof {
        if k > 0 && t@[0] == '+' {
            assert(t@.subrange(1, k as int) =~= line.drop_first());
        } else {
            assert(t@.subrange(0, k as int) =~= line);
        }
    }
    parse_digits(&t, start, k)
}

/// The start of the control program's report on a stopped server.
pub open spec fn stopped_report() -> Seq<char> {
    "pg_ctl: no server running"@
}

/// The start of the control program's report on a running server, which
/// goes on with the process id and a closing parenthesis.
pub open spec fn running_report() -> Seq<char> {
    "pg_ctl: server is running (PID: "@
}

/// The number of decimal digits that `s` starts with.
pub open spec fn leading_digits(s: Seq<char>) -> nat
    decreases s.len(),
{
    if s.len() > 0 && is_decimal_digit(s[0]) {
        leading_digits(s.drop_first()) + 1
    } else {
        0
    }
}

/// What a status report of the control program says: `Some(None)` for a
/// stopped server, `Some(Some(pid))` for a running one, `None` for a report
/// that says neither.
pub open spec fn reported_state(out: Seq<char>) -> Option<Option<u32>> {
    if occurs_at(out, 0, stopped_report()) {
        Some(None)
    } else if occurs_at(out, 0, running_report()) {
        let rest = out.skip(running_report().len() as int);
        let n = leading_digits(rest);
        if n > 0 && n < rest.len() && rest[n as int] == ')' && digits_value(rest.take(n as int))
            <= u32::MAX {
            Some(Some(digits_value(rest.take(n as int)) as u32))
        } else {
            None
        }
    } else {
        None
    }
}

/// Reads the control program's status report: `Ok(None)` for a stopped
/// server, `Ok(Some(pid))` for a running one; any other report is an
/// [`Error::MalformedStatusOutput`], never taken for either state.
pub fn parse_status_output(output: &str) -> (r: Result<Option<u32>, Error>)
    ensures
        match reported_state(output@) {
            Some(state) => r == Ok::<Option<u32>, Error>(state),
            None => r is Err && r->Err_0@ == ErrorView::MalformedStatusOutput(output@),
        },
{
    let t = chars_of(output);
    let stopped = chars_of("pg_ctl: no server running");
    if matches_at(&t, 0, &stopped) {
        return Ok(None);
    }
    let running = chars_of("pg_ctl: server is running (PID: ");
    if !matches_at(&t, 0, &running) {
        return Err(Error::MalformedStatusOutput(String::from_str(output)));
    }
    let m = running.len();
    let ghost rest = t@.skip(m as int);
    let mut k: usize = m;
    assert(rest.skip(0) =~= rest);
    while k < t.len() && '0' <= t[k] && t[k] <= '9'
        invariant
            m <= k <= t@.len(),
            rest == t@.skip(m as int),
            leading_digits(rest) == (k - m) + leading_digits(rest.skip(k - m)),
            all_decimal_digits(t@.subrange(m as int, k as int)),
        decreases t@.len() - k,
    {
        let ghost cur = rest.skip(k - m);
        assert(cur.drop_first() =~= rest.skip(k + 1 - m));
        assert(cur[0] == t@[k as int]);
        assert(t@.subrange(m as int, k + 1) =~= t@.subrange(m as int, k as int).push(t@[k as int]));
        k = k + 1;
    }
    assert(leading_digits(rest.skip(k - m)) == 0);
    assert(rest.take(k - m) =~= t@.subrange(m as int, k as int));
    if k == m || k == t.len() || t[k] != ')' {
        return Err(Error::MalformedStatusOutput(String::from_str(output)));
    }
    assert(rest[k - m] == t@[k as int]);
    match parse_digits(&t, m, k) {
        Some(pid) => Ok(Some(pid)),
        None => Err(Error::MalformedStatusOutput(String::from_str(output))),
    }
}

} // verus!
