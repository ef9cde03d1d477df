//! Exit-code classification and the decimal rendering used in messages.
use crate::error::{EnvError, Result};
use vstd::prelude::*;

verus! {

/// Exit code of a process ended by a broken pipe (128 + SIGPIPE).
pub const BROKEN_PIPE_EXIT: i32 = 141;

pub open spec fn digit_char(d: nat) -> char {
    if d == 0 { '0' }
    else if d == 1 { '1' }
    else if d == 2 { '2' }
    else if d == 3 { '3' }
    else if d == 4 { '4' }
    else if d == 5 { '5' }
    else if d == 6 { '6' }
    else if d == 7 { '7' }
    else if d == 8 { '8' }
    else { '9' }
}

/// Decimal digits of `n`, most significant first.
pub open spec fn decimal_of(n: nat) -> Seq<char>
    decreases n,
{
    if n < 10 {
        seq![digit_char(n)]
    } else {
        decimal_of(n / 10).push(digit_char(n % 10))
    }
}

/// Decimal text of a signed integer.
pub open spec fn signed_decimal_of(n: int) -> Seq<char> {
    if n < 0 {
        seq!['-'] + decimal_of((-n) as nat)
    } else {
        decimal_of(n as nat)
    }
}

/// Debug text of an optional exit code: `Some(<n>)` or `None`.
pub open spec fn code_text_of(code: Option<i32>) -> Seq<char> {
    match code {
        Some(c) => seq!['S', 'o', 'm', 'e', '('] + signed_decimal_of(c as int) + seq![')'],
        None => seq!['N', 'o', 'n', 'e'],
    }
}

/// A run exit that counts as success: zero, or a broken pipe.
pub open spec fn run_exit_ok(code: Option<i32>) -> bool {
    code == Some(0i32) || code == Some(BROKEN_PIPE_EXIT)
}

fn digit(d: u64) -> (c: char)
    requires
        d < 10,
    ensures
        c == digit_char(d as nat),
{
    if d == 0 { '0' }
    else if d == 1 { '1' }
    else if d == 2 { '2' }
    else if d == 3 { '3' }
    else if d == 4 { '4' }
    else if d == 5 { '5' }
    else if d == 6 { '6' }
    else if d == 7 { '7' }
    else if d == 8 { '8' }
    else { '9' }
}

/// Decimal digits of `n`.
pub fn decimal_chars(n: u64) -> (r: Vec<char>)
    ensures
        r@ == decimal_of(n as nat),
    decreases n,
{
    if n < 10 {
        let mut v: Vec<char> = Vec::new();
        v.push(digit(n));
        v
    } else {
        let mut v = decimal_chars(n / 10);
        v.push(digit(n % 10));
        v
    }
}

/// Debug text of an optional exit code, e.g. `Some(2)` or `None`.
pub fn code_text(code: Option<i32>) -> (r: String)
    ensures
        r@ == code_text_of(code),
{
    let mut v: Vec<char> = Vec::new();
    match code {
        Some(c) => {
            v.push('S');
            v.push('o');
            v.push('m');
            v.push('e');
            v.push('(');
            let ghost head = v@;
            let digits = if c < 0 {
                let m: u64 = if c == i32::MIN {
                    2147483648u64
                } else {
                    (-c) as u64
                };
                let mut d: Vec<char> = Vec::new();
                d.push('-');
                let mut tail = decimal_chars(m);
                d.append(&mut tail);
                d
            } else {
                decimal_chars(c as u64)
            };
            assert(digits@ == signed_decimal_of(c as int));
            let mut digits = digits;
            v.append(&mut digits);
            v.push(')');
            assert(v@ =~= code_text_of(code));
        },
        None => {
            v.push('N');
            v.push('o');
            v.push('n');
            v.push('e');
            assert(v@ =~= code_text_of(code));
        },
    }
    crate::listing::string_of(&v)
}

/// Decimal text of a count.
pub fn count_text(n: usize) -> (r: String)
    ensures
        r@ == decimal_of(n as nat),
{
    crate::listing::string_of(&decimal_chars(n as u64))
}

/// Outcome of running a command inside an environment: success on a zero
/// exit and on a broken-pipe exit, an execution error carrying the code
/// otherwise.
pub fn classify_run_exit(code: Option<i32>) -> (r: Result<()>)
    ensures
        run_exit_ok(code) <==> r is Ok,
        r is Err ==> r->Err_0 is Execution && r->Err_0->Execution_0@ == "Command failed with exit code "@
            + code_text_of(code),
{
    match code {
        Some(c) => {
            if c == 0 || c == BROKEN_PIPE_EXIT {
                return Ok(());
            }
        },
        None => {},
    }
    let mut msg = String::from_str("Command failed with exit code ");
    let text = code_text(code);
    msg.append(text.as_str());
    Err(EnvError::Execution(msg))
}

/// Outcome of a plain backend invocation: success only on a zero exit, an
/// execution error whose detail is `what` followed by the code otherwise.
pub fn classify_exit(code: Option<i32>, what: &str) -> (r: Result<()>)
    ensures
        (code == Some(0i32)) <==> r is Ok,
        r is Err ==> r->Err_0 is Execution && r->Err_0->Execution_0@ == what@ + code_text_of(code),
{
    if code == Some(0i32) {
        return Ok(());
    }
    let mut msg = String::from_str(what);
    let text = code_text(code);
    msg.append(text.as_str());
    Err(EnvError::Execution(msg))
}

} // verus!
