use vstd::prelude::*;

verus! {

/// The character of a decimal digit `d` (`0 <= d < 10`).
pub open spec fn digit_char(d: nat) -> char {
    if d == 0 { '0' }
    else if d == 1 { '1' }
    else if d == 2 { '2' }
    else if d == 3 { '3' }
    else if d == 4 { '4' }
    else if d == 5 { '5' }
    else if d == 6 { '6' }
    else if d == 7 { '7' }
    else if d == 8 { '8' }
    else { '9' }
}

/// The value of a digit character, the inverse of `digit_char`.
pub open spec fn char_digit(c: char) -> nat {
    if c == '0' { 0 }
    else if c == '1' { 1 }
    else if c == '2' { 2 }
    else if c == '3' { 3 }
    else if c == '4' { 4 }
    else if c == '5' { 5 }
    else if c == '6' { 6 }
    else if c == '7' { 7 }
    else if c == '8' { 8 }
    else { 9 }
}

/// The decimal notation of `n`, without leading zeros (`0` is written "0").
pub open spec fn decimal(n: nat) -> Seq<char>
    decreases n,
{
    if n < 10 {
        seq![digit_char(n)]
    } else {
        decimal(n / 10).push(digit_char(n % 10))
    }
}

/// The number that a string of decimal digits denotes.
pub open spec fn decimal_value(s: Seq<char>) -> nat
    decreases s.len(),
{
    if s.len() == 0 {
        0
    } else {
        decimal_value(s.drop_last()) * 10 + char_digit(s.last())
    }
}

/// Hours in a run time given in seconds.
pub open spec fn spec_hours(run_time: u64) -> nat {
    (run_time / 60 / 60) as nat
}

/// Minutes past the hour in a run time given in seconds.
pub open spec fn spec_minutes(run_time: u64) -> nat {
    (run_time / 60 % 60) as nat
}

/// The text that reports a run time: hours, "h ", minutes, "m".
pub open spec fn run_time_text(run_time: u64) -> Seq<char> {
    decimal(spec_hours(run_time)) + seq!['h', ' '] + decimal(spec_minutes(run_time)) + seq!['m']
}

/// Reading the decimal notation of `n` gives `n` back.
pub proof fn lemma_decimal_round_trip(n: nat)
    ensures
        decimal_value(decimal(n)) == n,
        decimal(n).len() >= 1,
    decreases n,
{
    if n < 10 {
        let s = decimal(n);
        assert(s.drop_last() =~= Seq::<char>::empty());
        assert(decimal_value(Seq::<char>::empty()) == 0);
    } else {
        lemma_decimal_round_trip(n / 10);
        let s = decimal(n);
        assert(s.drop_last() =~= decimal(n / 10));
        assert(char_digit(digit_char(n % 10)) == n % 10);
    }
}

/// Two numbers with the same decimal notation are equal.
pub proof fn lemma_decimal_injective(a: nat, b: nat)
    requires
        decimal(a) == decimal(b),
    ensures
        a == b,
{
    lemma_decimal_round_trip(a);
    lemma_decimal_round_trip(b);
}

/// The hours and minutes of a report describe the run time to the minute:
/// the minutes are below 60, and the whole minutes of the run time are
/// `hours * 60 + minutes`.
pub proof fn lemma_run_time_split(run_time: u64)
    ensures
        spec_minutes(run_time) < 60,
        spec_hours(run_time) * 60 + spec_minutes(run_time) == run_time / 60,
        spec_hours(run_time) * 3600 + spec_minutes(run_time) * 60 <= run_time,
        run_time < spec_hours(run_time) * 3600 + spec_minutes(run_time) * 60 + 60,
{
    let t = run_time as int;
    let total_minutes = t / 60;
    assert(total_minutes == (total_minutes / 60) * 60 + total_minutes % 60);
    assert(t == total_minutes * 60 + t % 60);
}

/// The one-character text of a decimal digit.
fn digit_text(d: u64) -> (s: &'static str)
    requires
        d < 10,
    ensures
        s@ == seq![digit_char(d as nat)],
{
    proof {
        reveal_strlit("0");
        reveal_strlit("1");
        reveal_strlit("2");
        reveal_strlit("3");
        reveal_strlit("4");
        reveal_strlit("5");
        reveal_strlit("6");
        reveal_strlit("7");
        reveal_strlit("8");
        reveal_strlit("9");
    }
    if d == 0 { "0" }
    else if d == 1 { "1" }
    else if d == 2 { "2" }
    else if d == 3 { "3" }
    else if d == 4 { "4" }
    else if d == 5 { "5" }
    else if d == 6 { "6" }
    else if d == 7 { "7" }
    else if d == 8 { "8" }
    else { "9" }
}

/// Appends the decimal notation of `n` to `out`.
pub fn push_decimal(out: &mut String, n: u64)
    ensures
        final(out)@ == old(out)@ + decimal(n as nat),
    decreases n,
{
    if n >= 10 {
        push_decimal(out, n / 10);
    }
    out.append(digit_text(n % 10));
    assert(final(out)@ =~= old(out)@ + decimal(n as nat));
}

/// The report of a run time given in seconds, as "<hours>h <minutes>m".
pub fn run_time_message(run_time: u64) -> (msg: String)
    ensures
        msg@ == run_time_text(run_time),
{
    let hours = run_time / 60 / 60;
    let minutes = run_time / 60 % 60;
    let mut msg = String::new();
    push_decimal(&mut msg, hours);
    proof {
        reveal_strlit("h ");
        reveal_strlit("m");
    }
    msg.append("h ");
    push_decimal(&mut msg, minutes);
    msg.append("m");
    assert(msg@ =~= run_time_text(run_time));
    msg
}

} // verus!
