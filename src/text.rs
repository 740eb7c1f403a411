use crate::model::{Info, ResponseMessage};
use vstd::prelude::*;

verus! {

/// The character of a decimal digit `d` in `0..10`.
pub open spec fn digit_char(d: nat) -> char {
    if d == 0 {
        '0'
    } else if d == 1 {
        '1'
    } else if d == 2 {
        '2'
    } else if d == 3 {
        '3'
    } else if d == 4 {
        '4'
    } else if d == 5 {
        '5'
    } else if d == 6 {
        '6'
    } else if d == 7 {
        '7'
    } else if d == 8 {
        '8'
    } else {
        '9'
    }
}

/// The decimal digits of `n`, most significant first, with no leading zero.
pub open spec fn digits(n: nat) -> Seq<char>
    decreases n,
{
    if n < 10 {
        seq![digit_char(n)]
    } else {
        digits(n / 10).push(digit_char(n % 10))
    }
}

/// The decimal text of an integer: its digits, after a minus sign when it is negative.
pub open spec fn decimal(n: int) -> Seq<char> {
    if n < 0 {
        seq!['-'] + digits((-n) as nat)
    } else {
        digits(n as nat)
    }
}

fn digit_text(d: u64) -> (r: &'static str)
    requires
        d < 10,
    ensures
        r@ == seq![digit_char(d as nat)],
{
    proof {
        reveal_strlit("0");
        reveal_strlit("1");
        reveal_strlit("2");
        reveal_strlit("3");
        reveal_strlit("4");
        reveal_strlit("5");
        reveal_strlit("6");
        reveal_strlit("7");
        reveal_strlit("8");
        reveal_strlit("9");
    }
    if d == 0 {
        "0"
    } else if d == 1 {
        "1"
    } else if d == 2 {
        "2"
    } else if d == 3 {
        "3"
    } else if d == 4 {
        "4"
    } else if d == 5 {
        "5"
    } else if d == 6 {
        "6"
    } else if d == 7 {
        "7"
    } else if d == 8 {
        "8"
    } else {
        "9"
    }
}

fn push_digits(out: &mut String, n: u64)
    ensures
        final(out)@ == old(out)@ + digits(n as nat),
    decreases n,
{
    if n >= 10 {
        push_digits(out, n / 10);
    }
    out.append(digit_text(n % 10));
    assert(out@ =~= old(out)@ + digits(n as nat));
}

/// Appends the decimal text of `n` to `out`.
pub fn push_decimal(out: &mut String, n: i64)
    ensures
        final(out)@ == old(out)@ + decimal(n as int),
{
    if n < 0 {
        proof {
            reveal_strlit("-");
        }
        out.append("-");
        let magnitude: u64 = ((-(n + 1)) as u64) + 1;
        push_digits(out, magnitude);
        assert(out@ =~= old(out)@ + decimal(n as int));
    } else {
        push_digits(out, n as u64);
    }
}

/// The answer to a recorded greeting of `name`.
pub open spec fn hello_text(name: Seq<char>) -> Seq<char> {
    "Hello, "@ + name + "!"@
}

/// The answer that reports how many greetings are recorded.
pub open spec fn welcome_text(count: int) -> Seq<char> {
    "Welcome! "@ + decimal(count) + " names have been greeted."@
}

/// The answer to recording `info`: it greets the name that was submitted.
pub fn hello_message(info: &Info) -> (r: ResponseMessage)
    ensures
        r.message@ == hello_text(info.name@),
{
    let mut message = String::from_str("Hello, ");
    message.append(info.name.as_str());
    message.append("!");
    ResponseMessage { message }
}

/// The answer that reports `count` recorded greetings.
pub fn welcome_message(count: i64) -> (r: ResponseMessage)
    ensures
        r.message@ == welcome_text(count as int),
{
    let mut message = String::from_str("Welcome! ");
    push_decimal(&mut message, count);
    message.append(" names have been greeted.");
    ResponseMessage { message }
}

/// With no greeting recorded, the welcome answer reads
/// "Welcome! 0 names have been greeted.".
pub proof fn welcome_when_empty()
    ensures
        welcome_text(0) == "Welcome! 0 names have been greeted."@,
{
    reveal_strlit("Welcome! ");
    reveal_strlit(" names have been greeted.");
    reveal_strlit("Welcome! 0 names have been greeted.");
    assert(digits(0) =~= seq!['0']);
    assert(welcome_text(0) =~= "Welcome! 0 names have been greeted."@);
}

} // verus!
