use vstd::prelude::*;
use vstd::string::StringExecFns;

verus! {

/// The character for one decimal digit value below ten.
pub open spec fn digit_char(d: nat) -> char {
    if d == 0 {
        '0'
    } else if d == 1 {
        '1'
    } else if d == 2 {
        '2'
    } else if d == 3 {
        '3'
    } else if d == 4 {
        '4'
    } else if d == 5 {
        '5'
    } else if d == 6 {
        '6'
    } else if d == 7 {
        '7'
    } else if d == 8 {
        '8'
    } else {
        '9'
    }
}

/// The numeric value of one decimal digit character; ten for any other
/// character, so that a value below ten means "this is a digit".
pub open spec fn digit_val(c: char) -> nat {
    if c == '0' {
        0
    } else if c == '1' {
        1
    } else if c == '2' {
        2
    } else if c == '3' {
        3
    } else if c == '4' {
        4
    } else if c == '5' {
        5
    } else if c == '6' {
        6
    } else if c == '7' {
        7
    } else if c == '8' {
        8
    } else if c == '9' {
        9
    } else {
        10
    }
}

/// The decimal numeral of `n`: most significant digit first, no sign, no
/// padding, and a single '0' for zero.
pub open spec fn dec_seq(n: nat) -> Seq<char>
    decreases n,
{
    if n < 10 {
        seq![digit_char(n)]
    } else {
        dec_seq(n / 10).push(digit_char(n % 10))
    }
}

/// The number a digit string denotes, most significant digit first.
pub open spec fn seq_value(s: Seq<char>) -> nat
    decreases s.len(),
{
    if s.len() == 0 {
        0
    } else {
        seq_value(s.drop_last()) * 10 + digit_val(s.last())
    }
}

proof fn lemma_digit_round_trip(d: nat)
    requires
        d < 10,
    ensures
        digit_val(digit_char(d)) == d,
{
}

proof fn lemma_dec_seq_len(n: nat)
    ensures
        dec_seq(n).len() >= 1,
    decreases n,
{
    if n >= 10 {
        lemma_dec_seq_len(n / 10);
    }
}

/// Reading the decimal numeral back gives the number it was made from: the
/// `/pid` body denotes exactly the process identifier it was built for.
pub proof fn lemma_decimal_value_round_trip(n: nat)
    ensures
        seq_value(dec_seq(n)) == n,
    decreases n,
{
    if n < 10 {
        lemma_digit_round_trip(n);
        assert(dec_seq(n).drop_last() =~= Seq::<char>::empty());
        assert(seq_value(Seq::<char>::empty()) == 0);
        assert(seq_value(dec_seq(n)) == digit_val(digit_char(n)));
    } else {
        lemma_decimal_value_round_trip(n / 10);
        lemma_digit_round_trip(n % 10);
        let s = dec_seq(n / 10);
        let d = digit_char(n % 10);
        assert(s.push(d).drop_last() =~= s);
        assert(s.push(d).last() == d);
        assert(seq_value(dec_seq(n)) == (n / 10) * 10 + n % 10);
        assert((n / 10) * 10 + n % 10 == n) by {
            vstd::arithmetic::div_mod::lemma_fundamental_div_mod(n as int, 10);
        };
    }
}

/// The decimal numeral never carries a leading zero; zero itself is "0".
pub proof fn lemma_decimal_no_leading_zero(n: nat)
    requires
        n > 0,
    ensures
        dec_seq(n)[0] != '0',
    decreases n,
{
    if n >= 10 {
        lemma_dec_seq_len(n / 10);
        lemma_decimal_no_leading_zero(n / 10);
        assert(dec_seq(n)[0] == dec_seq(n / 10)[0]);
    }
}

/// Identity idempotence: two `/pid` bodies computed for the same process
/// identifier are the same string.
pub proof fn lemma_pid_response_identical(pid: u32, r1: Seq<char>, r2: Seq<char>)
    requires
        r1 == dec_seq(pid as nat),
        r2 == dec_seq(pid as nat),
    ensures
        r1 == r2,
{
}

fn digit_str(d: u32) -> (r: &'static str)
    requires
        d < 10,
    ensures
        r@ == seq![digit_char(d as nat)],
{
    let r: &'static str = if d == 0 {
        "0"
    } else if d == 1 {
        "1"
    } else if d == 2 {
        "2"
    } else if d == 3 {
        "3"
    } else if d == 4 {
        "4"
    } else if d == 5 {
        "5"
    } else if d == 6 {
        "6"
    } else if d == 7 {
        "7"
    } else if d == 8 {
        "8"
    } else {
        "9"
    };
    proof {
        reveal_strlit("0");
        reveal_strlit("1");
        reveal_strlit("2");
        reveal_strlit("3");
        reveal_strlit("4");
        reveal_strlit("5");
        reveal_strlit("6");
        reveal_strlit("7");
        reveal_strlit("8");
        reveal_strlit("9");
        assert(r@ =~= seq![digit_char(d as nat)]);
    }
    r
}

fn push_decimal(n: u32, out: &mut String)
    ensures
        final(out)@ == old(out)@ + dec_seq(n as nat),
    decreases n,
{
    if n >= 10 {
        push_decimal(n / 10, out);
    }
    let d: u32 = n % 10;
    out.append(digit_str(d));
    proof {
        if n >= 10 {
            assert(old(out)@ + dec_seq((n / 10) as nat) + seq![digit_char((n % 10) as nat)]
                =~= old(out)@ + dec_seq(n as nat));
        } else {
            assert(old(out)@ + seq![digit_char(n as nat)] =~= old(out)@ + dec_seq(n as nat));
        }
    }
}

/// The `/pid` response body: exactly the decimal process identifier, with no
/// surrounding characters.
pub fn pid_body(pid: u32) -> (r: String)
    ensures
        r@ == dec_seq(pid as nat),
{
    let mut s = String::new();
    push_decimal(pid, &mut s);
    proof {
        assert(Seq::<char>::empty() + dec_seq(pid as nat) =~= dec_seq(pid as nat));
    }
    s
}

/// The root response body for a given process identifier.
pub open spec fn root_greeting(n: nat) -> Seq<char> {
    "Hello from reuseport! (pid="@ + dec_seq(n) + ")"@
}

/// The `/` response body: a fixed greeting naming the process identifier.
pub fn root_body(pid: u32) -> (r: String)
    ensures
        r@ == root_greeting(pid as nat),
{
    let mut s = "Hello from reuseport! (pid=".to_owned();
    push_decimal(pid, &mut s);
    s.append(")");
    s
}

} // verus!
