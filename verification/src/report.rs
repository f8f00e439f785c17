use vstd::prelude::*;
use vstd::string::StringExecFns;

use crate::task::TaskId;

verus! {

/// The character of a decimal digit.
pub open spec fn digit_char(d: nat) -> char {
    if d == 0 {
        '0'
    } else if d == 1 {
        '1'
    } else if d == 2 {
        '2'
    } else if d == 3 {
        '3'
    } else if d == 4 {
        '4'
    } else if d == 5 {
        '5'
    } else if d == 6 {
        '6'
    } else if d == 7 {
        '7'
    } else if d == 8 {
        '8'
    } else {
        '9'
    }
}

/// The decimal notation of `n`, without leading zeros.
pub open spec fn decimal(n: nat) -> Seq<char>
    decreases n,
{
    if n < 10 {
        seq![digit_char(n)]
    } else {
        decimal(n / 10) + seq![digit_char(n % 10)]
    }
}

/// Whether a character is one of the decimal digits `0` to `9`.
pub open spec fn is_digit(c: char) -> bool {
    '0' <= c && c <= '9'
}

/// The value of a decimal digit character: its distance from `0`.
pub open spec fn digit_value(c: char) -> int {
    (c as int) - ('0' as int)
}

/// The number that a string of decimal digits denotes, most significant first:
/// the sum of each digit times ten to the power of its place from the right.
pub open spec fn digits_value(s: Seq<char>) -> int
    decreases s.len(),
{
    if s.len() == 0 {
        0
    } else {
        digits_value(s.drop_last()) * 10 + digit_value(s.last())
    }
}

proof fn lemma_digit_char(d: nat)
    requires
        d < 10,
    ensures
        is_digit(digit_char(d)),
        digit_value(digit_char(d)) == d,
        d != 0 ==> digit_char(d) != '0',
{
}

/// `decimal(n)` is the standard notation of `n`: all of its characters are
/// digits, they denote `n`, and it has no leading zero (it starts with `0` only
/// where it is `0` itself).
pub proof fn lemma_decimal_notation(n: nat)
    ensures
        decimal(n).len() >= 1,
        forall|i: int| 0 <= i < decimal(n).len() ==> is_digit(#[trigger] decimal(n)[i]),
        digits_value(decimal(n)) == n,
        decimal(n)[0] == '0' ==> n == 0,
        n < 10 ==> decimal(n).len() == 1,
        n >= 10 ==> decimal(n).len() >= 2,
    decreases n,
{
    if n < 10 {
        lemma_digit_char(n);
        assert(decimal(n).drop_last() =~= Seq::<char>::empty());
        assert(digits_value(Seq::<char>::empty()) == 0);
        assert(digits_value(decimal(n)) == digits_value(decimal(n).drop_last()) * 10
            + digit_value(decimal(n).last()));
    } else {
        lemma_decimal_notation(n / 10);
        lemma_digit_char(n % 10);
        let s = decimal(n);
        assert(s.drop_last() =~= decimal(n / 10));
        assert(s.last() == digit_char(n % 10));
        assert(s[0] == decimal(n / 10)[0]);
        assert forall|i: int| 0 <= i < s.len() implies is_digit(#[trigger] s[i]) by {
            if i < s.len() - 1 {
                assert(s[i] == decimal(n / 10)[i]);
            }
        }
        assert(digits_value(s) == digits_value(decimal(n / 10)) * 10 + digit_value(
            digit_char(n % 10),
        ));
        assert((n / 10) * 10 + n % 10 == n);
    }
}

fn digit_str(d: u64) -> (s: &'static str)
    requires
        d < 10,
    ensures
        s@ =~= seq![digit_char(d as nat)],
{
    if d == 0 {
        proof {
            reveal_strlit("0");
        }
        "0"
    } else if d == 1 {
        proof {
            reveal_strlit("1");
        }
        "1"
    } else if d == 2 {
        proof {
            reveal_strlit("2");
        }
        "2"
    } else if d == 3 {
        proof {
            reveal_strlit("3");
        }
        "3"
    } else if d == 4 {
        proof {
            reveal_strlit("4");
        }
        "4"
    } else if d == 5 {
        proof {
            reveal_strlit("5");
        }
        "5"
    } else if d == 6 {
        proof {
            reveal_strlit("6");
        }
        "6"
    } else if d == 7 {
        proof {
            reveal_strlit("7");
        }
        "7"
    } else if d == 8 {
        proof {
            reveal_strlit("8");
        }
        "8"
    } else {
        proof {
            reveal_strlit("9");
        }
        "9"
    }
}

/// Writes the decimal notation of `n` at the end of `out`.
fn append_decimal(out: &mut String, n: u64)
    ensures
        final(out)@ == old(out)@ + decimal(n as nat),
    decreases n,
{
    if n >= 10 {
        append_decimal(out, n / 10);
    }
    out.append(digit_str(n % 10));
    proof {
        if n >= 10 {
            assert(old(out)@ + decimal((n / 10) as nat) + seq![digit_char((n % 10) as nat)]
                =~= old(out)@ + decimal(n as nat));
        }
    }
}

/// The decimal notation of `n`, as a string.
pub fn decimal_string(n: u64) -> (text: String)
    ensures
        text@ == decimal(n as nat),
        digits_value(text@) == n,
        forall|i: int| 0 <= i < text@.len() ==> is_digit(#[trigger] text@[i]),
        text@.len() >= 1,
        text@[0] == '0' ==> n == 0,
{
    proof {
        lemma_decimal_notation(n as nat);
    }
    let mut text = String::new();
    append_decimal(&mut text, n);
    proof {
        assert(Seq::<char>::empty() + decimal(n as nat) =~= decimal(n as nat));
    }
    text
}

/// The line that a finished Foo task prints: `Foo ` and its id.
pub fn foo_report(id: TaskId) -> (line: String)
    ensures
        line@ == "Foo "@ + decimal(id as nat),
{
    let mut line = String::new();
    line.append("Foo ");
    append_decimal(&mut line, id);
    proof {
        assert(Seq::<char>::empty() + "Foo "@ =~= "Foo "@);
    }
    line
}

/// The line that a finished Baz task prints: `Baz ` and the number it drew.
pub fn baz_report(number: u64) -> (line: String)
    ensures
        line@ == "Baz "@ + decimal(number as nat),
{
    let mut line = String::new();
    line.append("Baz ");
    append_decimal(&mut line, number);
    proof {
        assert(Seq::<char>::empty() + "Baz "@ =~= "Baz "@);
    }
    line
}

/// The line that a finished Bar task prints: the status code of the answer it got.
pub fn bar_report(status_code: u16) -> (line: String)
    ensures
        line@ == decimal(status_code as nat),
{
    decimal_string(status_code as u64)
}

/// The number that a Baz task reports for a drawn value: the value modulo 344,
/// so always within 0 to 343.
pub fn baz_number(drawn: u64) -> (number: u64)
    ensures
        number == drawn % 344,
        number <= 343,
{
    drawn % 344
}

/// Draws a fresh number for a Baz task.
pub fn draw_baz_number() -> (number: u64)
    ensures
        number <= 343,
{
    baz_number(random_u64())
}

/// Calls `rand::random::<u64>()`: a value drawn from the thread-local generator.
/// Nothing is stated of the value: any `u64` can come back. The call panics only
/// where the operating system gives the generator no seed, which no argument decides.
#[verifier::external_body]
fn random_u64() -> u64 {
    rand::random::<u64>()
}

} // verus!
