use vstd::prelude::*;

verus! {

/// The character that writes the decimal digit `d` (for `d < 10`).
pub open spec fn digit_char(d: nat) -> char {
    if d == 0 {
        '0'
    } else if d == 1 {
        '1'
    } else if d == 2 {
        '2'
    } else if d == 3 {
        '3'
    } else if d == 4 {
        '4'
    } else if d == 5 {
        '5'
    } else if d == 6 {
        '6'
    } else if d == 7 {
        '7'
    } else if d == 8 {
        '8'
    } else {
        '9'
    }
}

pub open spec fn is_digit(c: char) -> bool {
    '0' <= c && c <= '9'
}

/// `n` written in decimal, most significant digit first, without leading zeros.
pub open spec fn decimal(n: nat) -> Seq<char>
    decreases n,
{
    if n < 10 {
        seq![digit_char(n)]
    } else {
        decimal(n / 10).push(digit_char(n % 10))
    }
}

/// The short name of the token deployed at block `height`: `b` and the height.
pub open spec fn token_name_of(height: nat) -> Seq<char> {
    seq!['b'] + decimal(height)
}

/// The sub-account `name.parent`.
pub open spec fn sub_account_of(name: Seq<char>, parent: Seq<char>) -> Seq<char> {
    name + seq!['.'] + parent
}

/// The full account of the token deployed at block `height` under `parent`.
pub open spec fn token_account_of(height: nat, parent: Seq<char>) -> Seq<char> {
    sub_account_of(token_name_of(height), parent)
}

fn digit_str(d: u64) -> (r: &'static str)
    requires
        d < 10,
    ensures
        r@ == seq![digit_char(d as nat)],
{
    proof {
        reveal_strlit("0");
        reveal_strlit("1");
        reveal_strlit("2");
        reveal_strlit("3");
        reveal_strlit("4");
        reveal_strlit("5");
        reveal_strlit("6");
        reveal_strlit("7");
        reveal_strlit("8");
        reveal_strlit("9");
    }
    if d == 0 {
        "0"
    } else if d == 1 {
        "1"
    } else if d == 2 {
        "2"
    } else if d == 3 {
        "3"
    } else if d == 4 {
        "4"
    } else if d == 5 {
        "5"
    } else if d == 6 {
        "6"
    } else if d == 7 {
        "7"
    } else if d == 8 {
        "8"
    } else {
        "9"
    }
}

/// Writes `n` in decimal.
pub fn decimal_string(n: u64) -> (r: String)
    ensures
        r@ == decimal(n as nat),
    decreases n,
{
    if n < 10 {
        String::from_str(digit_str(n))
    } else {
        let mut s = decimal_string(n / 10);
        s.append(digit_str(n % 10));
        s
    }
}

/// The short token name for block `height`, e.g. `b100`.
pub fn token_name(height: u64) -> (r: String)
    ensures
        r@ == token_name_of(height as nat),
{
    proof {
        reveal_strlit("b");
    }
    let digits = decimal_string(height);
    let mut s = String::from_str("b");
    s.append(digits.as_str());
    s
}

/// The sub-account `name.parent`.
pub fn sub_account(name: &str, parent: &str) -> (r: String)
    ensures
        r@ == sub_account_of(name@, parent@),
{
    proof {
        reveal_strlit(".");
    }
    let mut s = String::from_str(name);
    s.append(".");
    s.append(parent);
    s
}

proof fn lemma_digit_char(d: nat)
    requires
        d < 10,
    ensures
        is_digit(digit_char(d)),
        forall|e: nat| e < 10 && digit_char(e) == digit_char(d) ==> e == d,
{
}

proof fn lemma_decimal_digits(n: nat)
    ensures
        decimal(n).len() >= 1,
        forall|i: int| 0 <= i < decimal(n).len() ==> is_digit(#[trigger] decimal(n)[i]),
    decreases n,
{
    if n < 10 {
        lemma_digit_char(n);
    } else {
        lemma_decimal_digits(n / 10);
        lemma_digit_char(n % 10);
        assert forall|i: int| 0 <= i < decimal(n).len() implies is_digit(#[trigger] decimal(n)[i]) by {
            if i < decimal(n / 10).len() {
                assert(decimal(n)[i] == decimal(n / 10)[i]);
            }
        }
    }
}

/// Distinct numbers have distinct decimal forms.
pub proof fn lemma_decimal_injective(a: nat, b: nat)
    ensures
        decimal(a) == decimal(b) <==> a == b,
    decreases a + b,
{
    if decimal(a) == decimal(b) {
        lemma_decimal_digits(a);
        lemma_decimal_digits(b);
        if a < 10 && b < 10 {
            assert(decimal(a)[0] == decimal(b)[0]);
            lemma_digit_char(a);
        } else if a < 10 {
            lemma_decimal_digits(b / 10);
            assert(decimal(b).len() >= 2);
        } else if b < 10 {
            lemma_decimal_digits(a / 10);
            assert(decimal(a).len() >= 2);
        } else {
            let la = decimal(a).len();
            assert(decimal(a)[la - 1] == digit_char(a % 10));
            assert(decimal(b)[la - 1] == digit_char(b % 10));
            lemma_digit_char(a % 10);
            assert(decimal(a / 10) =~= decimal(a).drop_last());
            assert(decimal(b / 10) =~= decimal(b).drop_last());
            lemma_decimal_injective(a / 10, b / 10);
        }
    }
}

/// The token account is a function of the block height and the parent account
/// alone, and two deployments get the same account exactly when they run at the
/// same block height under the same parent.
pub proof fn lemma_token_account_injective(h1: nat, p1: Seq<char>, h2: nat, p2: Seq<char>)
    ensures
        token_account_of(h1, p1) == token_account_of(h2, p2) <==> (h1 == h2 && p1 == p2),
{
    let s1 = token_account_of(h1, p1);
    let s2 = token_account_of(h2, p2);
    let d1 = decimal(h1);
    let d2 = decimal(h2);
    let n1: int = d1.len() as int;
    let n2: int = d2.len() as int;
    if s1 == s2 {
        lemma_decimal_digits(h1);
        lemma_decimal_digits(h2);
        assert(s1[1 + n1] == '.');
        assert(s2[1 + n2] == '.');
        if n1 < n2 {
            assert(s2[1 + n1] == d2[n1]);
            assert(false);
        } else if n2 < n1 {
            assert(s1[1 + n2] == d1[n2]);
            assert(false);
        }
        assert(d1 =~= s1.subrange(1, 1 + n1));
        assert(d2 =~= s2.subrange(1, 1 + n2));
        assert(p1 =~= s1.subrange(2 + n1, s1.len() as int));
        assert(p2 =~= s2.subrange(2 + n2, s2.len() as int));
        lemma_decimal_injective(h1, h2);
    }
}

} // verus!
