//! Small string builders with exact character-level specifications.

use vstd::prelude::*;

verus! {

/// The character of a decimal digit.
pub open spec fn digit_char(d: nat) -> char {
    if d == 0 {
        '0'
    } else if d == 1 {
        '1'
    } else if d == 2 {
        '2'
    } else if d == 3 {
        '3'
    } else if d == 4 {
        '4'
    } else if d == 5 {
        '5'
    } else if d == 6 {
        '6'
    } else if d == 7 {
        '7'
    } else if d == 8 {
        '8'
    } else {
        '9'
    }
}

/// Decimal digits of a natural number, most significant first, no leading zero.
pub open spec fn digits(n: nat) -> Seq<char>
    decreases n,
{
    if n < 10 {
        seq![digit_char(n)]
    } else {
        digits(n / 10).push(digit_char(n % 10))
    }
}

/// Decimal rendering of an integer, with a leading `-` when it is negative.
pub open spec fn decimal(n: int) -> Seq<char> {
    if n < 0 {
        seq!['-'] + digits((-n) as nat)
    } else {
        digits(n as nat)
    }
}

fn digit_str(d: u64) -> (r: &'static str)
    requires
        d < 10,
    ensures
        r@ == seq![digit_char(d as nat)],
{
    match d {
        0 => {
            proof { reveal_strlit("0"); }
            "0"
        },
        1 => {
            proof { reveal_strlit("1"); }
            "1"
        },
        2 => {
            proof { reveal_strlit("2"); }
            "2"
        },
        3 => {
            proof { reveal_strlit("3"); }
            "3"
        },
        4 => {
            proof { reveal_strlit("4"); }
            "4"
        },
        5 => {
            proof { reveal_strlit("5"); }
            "5"
        },
        6 => {
            proof { reveal_strlit("6"); }
            "6"
        },
        7 => {
            proof { reveal_strlit("7"); }
            "7"
        },
        8 => {
            proof { reveal_strlit("8"); }
            "8"
        },
        _ => {
            proof { reveal_strlit("9"); }
            "9"
        },
    }
}

fn digits_string(n: u64) -> (r: String)
    ensures
        r@ == digits(n as nat),
    decreases n,
{
    if n < 10 {
        String::from_str(digit_str(n))
    } else {
        let mut s = digits_string(n / 10);
        s.append(digit_str(n % 10));
        s
    }
}

/// Renders `n` in decimal, as `{}` formatting of an integer does.
pub fn decimal_string(n: i64) -> (r: String)
    ensures
        r@ == decimal(n as int),
{
    if n < 0 {
        let magnitude: u64 = if n == i64::MIN {
            9223372036854775808u64
        } else {
            (-n) as u64
        };
        let d = digits_string(magnitude);
        proof { reveal_strlit("-"); }
        let r = String::from_str("-").concat(d.as_str());
        assert(r@ == seq!['-'] + digits((-n) as nat));
        r
    } else {
        digits_string(n as u64)
    }
}

/// Decimal digits are neither a sign nor a `#`.
pub proof fn lemma_digits_plain(n: nat)
    ensures
        digits(n).len() >= 1,
        (digits(n).len() == 1) == (n < 10),
        forall|i: int| 0 <= i < digits(n).len() ==> #[trigger] digits(n)[i] != '#' && digits(n)[i] != '-',
    decreases n,
{
    if n >= 10 {
        lemma_digits_plain(n / 10);
        assert forall|i: int| 0 <= i < digits(n).len() implies #[trigger] digits(n)[i] != '#' && digits(n)[i] != '-' by {
            if i < digits(n / 10).len() {
                assert(digits(n)[i] == digits(n / 10)[i]);
            }
        }
    }
}

/// Distinct naturals have distinct digits.
pub proof fn lemma_digits_injective(a: nat, b: nat)
    requires
        digits(a) == digits(b),
    ensures
        a == b,
    decreases a,
{
    lemma_digits_plain(a);
    lemma_digits_plain(b);
    if a >= 10 && b >= 10 {
        let da = digits(a);
        assert(da.drop_last() == digits(a / 10));
        assert(digits(b).drop_last() == digits(b / 10));
        lemma_digits_injective(a / 10, b / 10);
        assert(da.last() == digit_char(a % 10));
        assert(digits(b).last() == digit_char(b % 10));
        lemma_digit_char_injective(a % 10, b % 10);
        assert(a == b) by (nonlinear_arith)
            requires
                a / 10 == b / 10,
                a % 10 == b % 10,
        ;
    } else if a < 10 && b < 10 {
        assert(digits(a)[0] == digit_char(a));
        assert(digits(b)[0] == digit_char(b));
        lemma_digit_char_injective(a, b);
    }
}

proof fn lemma_digit_char_injective(x: nat, y: nat)
    requires
        x < 10,
        y < 10,
        digit_char(x) == digit_char(y),
    ensures
        x == y,
{
}

/// Distinct integers have distinct decimal renderings, and none holds a `#`.
pub proof fn lemma_decimal_injective(a: int, b: int)
    ensures
        decimal(a) == decimal(b) ==> a == b,
        forall|i: int| 0 <= i < decimal(a).len() ==> #[trigger] decimal(a)[i] != '#',
{
    let ma: nat = if a < 0 { (-a) as nat } else { a as nat };
    let mb: nat = if b < 0 { (-b) as nat } else { b as nat };
    lemma_digits_plain(ma);
    lemma_digits_plain(mb);
    assert forall|i: int| 0 <= i < decimal(a).len() implies #[trigger] decimal(a)[i] != '#' by {
        if a < 0 && i > 0 {
            assert(decimal(a)[i] == digits(ma)[i - 1]);
        }
    }
    if decimal(a) == decimal(b) {
        if a < 0 && b < 0 {
            assert(digits(ma) == decimal(a).drop_first());
            assert(digits(mb) == decimal(b).drop_first());
            lemma_digits_injective(ma, mb);
        } else if a < 0 {
            assert(decimal(a)[0] == '-');
            assert(digits(mb)[0] != '-');
        } else if b < 0 {
            assert(decimal(b)[0] == '-');
            assert(digits(ma)[0] != '-');
        } else {
            lemma_digits_injective(ma, mb);
        }
    }
}

} // verus!
