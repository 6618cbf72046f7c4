//! Short human-readable descriptions of allocations, as they appear in
//! diagnostics: the address in hexadecimal and the size in decimal.
use vstd::prelude::*;
use vstd::string::StringExecFns;
use crate::shared::Allocation;

verus! {

/// The character of a digit below 16: `0`-`9`, then `a`-`f`.
pub open spec fn digit_char(d: nat) -> char {
    if d < 10 {
        ((d + 48) as u8) as char
    } else {
        ((d + 87) as u8) as char
    }
}

/// The digits of `n` in `base`, most significant first, without leading zeros
/// (`0` is written as one digit).
pub open spec fn digits(n: nat, base: nat) -> Seq<char>
    recommends
        2 <= base <= 16,
    decreases n,
{
    if base < 2 || n < base {
        seq![digit_char(n)]
    } else {
        proof {
            assert(n / base < n) by (nonlinear_arith)
                requires
                    base >= 2,
                    n >= base,
            ;
        }
        digits(n / base, base).push(digit_char(n % base))
    }
}

/// The value of a digit character: `0`-`9` are 0 to 9, `a`-`f` are 10 to 15.
pub open spec fn digit_value(c: char) -> int {
    if '0' <= c && c <= '9' {
        c as int - 48
    } else {
        c as int - 87
    }
}

/// The number that a sequence of digits in `base` stands for.
pub open spec fn digits_value(s: Seq<char>, base: nat) -> int
    decreases s.len(),
{
    if s.len() == 0 {
        0
    } else {
        digits_value(s.drop_last(), base) * base + digit_value(s.last())
    }
}

proof fn lemma_digit_char(d: nat)
    requires
        d < 16,
    ensures
        digit_value(digit_char(d)) == d,
        ('0' <= digit_char(d) && digit_char(d) <= '9') || ('a' <= digit_char(d) && digit_char(d) <= 'f'),
        d > 0 ==> digit_char(d) != '0',
{
}

/// Written in any base from 2 to 16, a number's digits read back as the
/// number, each is one of `0`-`9` and `a`-`f` below the base, and a number
/// other than zero does not start with `0`.
pub proof fn law_digits_read_back(n: nat, base: nat)
    requires
        2 <= base <= 16,
    ensures
        digits_value(digits(n, base), base) == n,
        forall|k: int|
            0 <= k < digits(n, base).len() ==> 0 <= #[trigger] digit_value(digits(n, base)[k]) < base,
        n > 0 ==> digits(n, base)[0] != '0',
    decreases n,
{
    if n < base {
        lemma_digit_char(n);
        assert(digits(n, base).drop_last() =~= Seq::<char>::empty());
        assert(digits(n, base).last() == digit_char(n));
        assert(digits_value(Seq::<char>::empty(), base) == 0);
        assert(digits_value(digits(n, base), base) == 0 * base + digit_value(digit_char(n)));
    } else {
        assert(n / base < n) by (nonlinear_arith)
            requires
                base >= 2,
                n >= base,
        ;
        assert(n / base > 0) by (nonlinear_arith)
            requires
                base >= 2,
                n >= base,
        ;
        law_digits_read_back(n / base, base);
        lemma_digit_char(n % base);
        let init = digits(n / base, base);
        assert(digits(n, base).drop_last() =~= init);
        assert(n == (n / base) * base + n % base) by (nonlinear_arith)
            requires
                base >= 2,
        ;
        assert(digits(n, base).last() == digit_char(n % base));
        assert(digits_value(digits(n, base), base) == digits_value(init, base) * base + digit_value(
            digit_char(n % base),
        ));
        assert forall|k: int| 0 <= k < digits(n, base).len() implies 0 <= #[trigger] digit_value(
            digits(n, base)[k],
        ) < base by {
            if k < init.len() {
                assert(digits(n, base)[k] == init[k]);
            }
        }
    }
}

fn digit_str(d: usize) -> (r: &'static str)
    requires
        d < 16,
    ensures
        r@ == seq![digit_char(d as nat)],
{
    proof {
        reveal_strlit("0");
        reveal_strlit("1");
        reveal_strlit("2");
        reveal_strlit("3");
        reveal_strlit("4");
        reveal_strlit("5");
        reveal_strlit("6");
        reveal_strlit("7");
        reveal_strlit("8");
        reveal_strlit("9");
        reveal_strlit("a");
        reveal_strlit("b");
        reveal_strlit("c");
        reveal_strlit("d");
        reveal_strlit("e");
        reveal_strlit("f");
    }
    let r = match d {
        0 => "0",
        1 => "1",
        2 => "2",
        3 => "3",
        4 => "4",
        5 => "5",
        6 => "6",
        7 => "7",
        8 => "8",
        9 => "9",
        10 => "a",
        11 => "b",
        12 => "c",
        13 => "d",
        14 => "e",
        _ => "f",
    };
    assert(r@ =~= seq![digit_char(d as nat)]);
    r
}

/// Appends the digits of `n` in `base`.
fn append_digits(t: &mut String, n: usize, base: usize)
    requires
        2 <= base <= 16,
    ensures
        final(t)@ == old(t)@ + digits(n as nat, base as nat),
    decreases n,
{
    if n >= base {
        assert(n / base < n) by (nonlinear_arith)
            requires
                base >= 2,
                n >= base,
        ;
        append_digits(t, n / base, base);
    }
    if n < base {
        assert(n % base == n) by (nonlinear_arith)
            requires
                n < base,
        ;
    }
    t.append(digit_str(n % base));
    assert(t@ =~= old(t)@ + digits(n as nat, base as nat));
}

/// `n` written in decimal.
pub fn decimal(n: usize) -> (r: String)
    ensures
        r@ == digits(n as nat, 10),
{
    let mut t = String::new();
    append_digits(&mut t, n, 10);
    assert(t@ =~= digits(n as nat, 10));
    t
}

/// An address written as Rust prints a pointer: `0x` and lowercase
/// hexadecimal digits.
pub fn hex_address(n: usize) -> (r: String)
    ensures
        r@ == "0x"@ + digits(n as nat, 16),
{
    let mut t = String::from_str("0x");
    append_digits(&mut t, n, 16);
    t
}

impl Allocation {
    /// `(address, size)`, the address in hexadecimal and the size in
    /// decimal.
    pub fn describe(&self) -> (r: String)
        ensures
            r@ == "("@ + "0x"@ + digits(self.0.0 as nat, 16) + ", "@ + digits(self.1.size as nat, 10)
                + ")"@,
    {
        let mut t = String::from_str("(");
        t.append(hex_address(self.0.0).as_str());
        t.append(", ");
        t.append(decimal(self.1.size).as_str());
        t.append(")");
        t
    }
}

} // verus!
