//! Money text: amounts in milliunits shown as dollars and cents.
//!
//! An amount is shown as its `f64` value in dollars (`m as f64 / 1000.0`)
//! printed with two decimals. The arithmetic of those doubles is modelled
//! here with integers: a double has 53 significant bits, and each operation
//! rounds to the nearest one, a tie going to the even one.

use vstd::prelude::*;
use vstd::arithmetic::power2::{
    lemma2_to64, lemma2_to64_rest, lemma_pow2_adds, lemma_pow2_pos, lemma_pow2_strictly_increases, lemma_pow2_unfold, pow2,
};
use vstd::arithmetic::div_mod::{lemma_div_by_multiple, lemma_fundamental_div_mod, lemma_mod_multiples_basic};
use crate::text::{decimal, digit, digit_exec, push_char, push_decimal};

verus! {

/// 2^53: a double's significand is below this.
pub const TWO_53: u128 = 0x20000000000000;

/// 2^62: the quotients by 1000 are counted in units of 2^-62.
pub const TWO_62: u128 = 0x4000000000000000;

/// The integer nearest to `num / den`, a tie going to the even one.
pub open spec fn round_even(num: nat, den: nat) -> nat {
    let q = num / den;
    let r = num % den;
    if 2 * r < den {
        q
    } else if 2 * r > den {
        q + 1
    } else if q % 2 == 0 {
        q
    } else {
        q + 1
    }
}

/// `num / den` rounded to a double, as a whole number of units of 2^k: the
/// unit doubles while the quotient holds 2^53 units or more, then the
/// quotient is rounded to a whole number of units, a tie going to the even
/// one.
pub open spec fn round53(num: nat, den: nat, k: nat) -> nat
    decreases 128 - k,
{
    if k < 128 && num >= TWO_53 * (den * pow2(k)) {
        round53(num, den, k + 1)
    } else {
        round_even(num, den * pow2(k)) * pow2(k)
    }
}

fn round_even_exec(num: u128, den: u128) -> (r: u128)
    requires
        den > 0,
        num / den < 0xffff_ffff_ffff_ffff_ffff_ffff_ffff_ffffu128,
    ensures
        r == round_even(num as nat, den as nat),
        r <= num / den + 1,
{
    let q = num / den;
    let rem = num % den;
    let rest = den - rem;
    if rem < rest {
        q
    } else if rem > rest {
        q + 1
    } else if q % 2 == 0 {
        q
    } else {
        q + 1
    }
}

/// `num / den` rounded to a double, counted in the units that `round53`
/// starts from.
fn round53_exec(num: u128, den: u128) -> (r: u128)
    requires
        0 < den <= 1000,
        num <= 0x8000_0000_0000_0000_0000_0000_0000_0000u128,
    ensures
        r == round53(num as nat, den as nat, 0),
        r * den * TWO_53 <= num * (TWO_53 + 2) + TWO_53 * den,
{
    let mut d: u128 = den;
    let mut scale: u128 = 1;
    let ghost mut k: nat = 0;
    proof {
        lemma2_to64();
        lemma_pow2_adds(64, 64);
    }
    assert(pow2(128) == 0x1_0000_0000_0000_0000_0000_0000_0000_0000);
    while num / d >= TWO_53
        invariant
            0 < den <= 1000,
            num <= 0x8000_0000_0000_0000_0000_0000_0000_0000u128,
            pow2(128) == 0x1_0000_0000_0000_0000_0000_0000_0000_0000,
            d == den * scale,
            scale == pow2(k),
            1 <= scale <= d,
            round53(num as nat, den as nat, 0) == round53(num as nat, den as nat, k),
            scale == 1 || 2 * num >= TWO_53 * d,
        decreases num - d,
    {
        proof {
            lemma_fundamental_div_mod(num as int, d as int);
            let q = num / d;
            assert(num >= TWO_53 * d) by (nonlinear_arith)
                requires
                    num == d * q + num % d,
                    num % d >= 0,
                    q >= TWO_53,
                    d > 0,
            ;
            if k >= 128 {
                if k > 128 {
                    lemma_pow2_strictly_increases(128, k);
                }
                assert(false);
            }
            assert(num as nat >= TWO_53 * (den as nat * pow2(k)));
            assert(round53(num as nat, den as nat, k) == round53(num as nat, den as nat, k + 1));
            lemma_pow2_unfold(k + 1);
        }
        d = d * 2;
        scale = scale * 2;
        proof {
            k = k + 1;
            assert(d == den * scale) by (nonlinear_arith)
                requires
                    d == 2 * (den * (scale / 2)),
                    scale % 2 == 0,
            ;
        }
    }
    proof {
        lemma_fundamental_div_mod(num as int, d as int);
        let q = num / d;
        assert(num < TWO_53 * d) by (nonlinear_arith)
            requires
                num == d * q + num % d,
                num % d < d,
                q < TWO_53,
                d > 0,
        ;
        assert(!(num as nat >= TWO_53 * (den as nat * pow2(k))));
    }
    let q = round_even_exec(num, d);
    let ghost nd = num / d;
    assert(q * d <= num + d) by (nonlinear_arith)
        requires
            q <= nd + 1,
            num == d * nd + num % d,
            num % d >= 0,
            d > 0,
    ;
    assert(d <= 0x8_0000_0000_0000_0000_0000u128 + 1000);
    assert(q * scale <= q * d) by (nonlinear_arith)
        requires
            scale <= d,
            q >= 0,
    ;
    let r = q * scale;
    assert(r * den == q * d) by (nonlinear_arith)
        requires
            r == q * scale,
            d == den * scale,
    ;
    assert(r * den * TWO_53 <= num * (TWO_53 + 2) + TWO_53 * den) by (nonlinear_arith)
        requires
            r * den == q * d,
            q * d <= num + d,
            scale == 1 || 2 * num >= TWO_53 * d,
            scale == 1 ==> d == den,
    ;
    r
}

/// The double nearest to the integer `a` (`a as f64`).
pub open spec fn double_of(a: nat) -> nat {
    round53(a, 1, 0)
}

/// The double nearest to `double_of(a) / 1000`, in units of 2^-62 (the
/// quotients of whole positive amounts are no finer than that).
pub open spec fn thousandth_units(a: nat) -> nat {
    round53(double_of(a) * (TWO_62 as nat), 1000, 0)
}

/// The absolute value of `m`.
pub open spec fn abs(m: int) -> int {
    if m < 0 {
        -m
    } else {
        m
    }
}

/// The whole cents that `{:.2}` shows for the double `m as f64 / 1000.0`:
/// the exact value of that double rounded to cents, a tie going to the even
/// number of cents.
pub open spec fn cents(m: int) -> nat {
    round_even(100 * thousandth_units(abs(m) as nat), TWO_62 as nat)
}

/// `m` milliunits as money text: `$` and the dollars with two decimals,
/// preceded by `-` when `m` is negative, e.g. `-$12.35` for `-12345`.
pub open spec fn money_text(m: int) -> Seq<char> {
    let c = cents(m);
    let body = seq!['$'] + decimal(c / 100) + seq!['.', digit((c % 100) / 10), digit(c % 10)];
    if m < 0 {
        seq!['-'] + body
    } else {
        body
    }
}

/// A negative amount reads as the same amount without its sign, with `-` in
/// front: what `format_milliunits(-m)` gives is `-` and then what
/// `format_milliunits(m)` gives.
pub proof fn law_negative_amount_text(m: int)
    requires
        m > 0,
    ensures
        money_text(-m) == seq!['-'] + money_text(m),
{
}

/// Rounding an exact multiple: `round_even(q * den, den)` is `q`.
proof fn lemma_round_even_exact(q: nat, den: nat)
    requires
        den > 0,
    ensures
        round_even(q * den, den) == q,
{
    lemma_div_by_multiple(q as int, den as int);
    lemma_mod_multiples_basic(q as int, den as int);
}

/// A whole number below 2^53 is a double as it stands.
proof fn lemma_double_of_small(a: nat)
    requires
        a < TWO_53,
    ensures
        double_of(a) == a,
{
    lemma2_to64();
    assert(pow2(0) == 1);
    lemma_round_even_exact(a, 1);
    assert(a * 1 == a);
}

/// The quotient `1000 * w * 2^62 / 1000`, rounded to a double from the unit
/// 2^k up, is exactly `w * 2^62` when `w` is below 2^53.
proof fn lemma_round53_exact_thousandths(w: nat, k: nat)
    requires
        w < TWO_53,
        k <= 62,
    ensures
        round53(1000 * w * (TWO_62 as nat), 1000, k) == w * (TWO_62 as nat),
    decreases 62 - k,
{
    let num: nat = 1000 * w * (TWO_62 as nat);
    let p = pow2(k);
    let rest = pow2((62 - k) as nat);
    lemma_pow2_adds(k, (62 - k) as nat);
    lemma2_to64_rest();
    assert(p * rest == TWO_62);
    lemma_pow2_pos(k);
    lemma2_to64();
    if k < 128 && num >= TWO_53 * (1000 * p) {
        if k == 62 {
            assert(rest == 1) by {
                lemma2_to64();
            }
            assert(w * TWO_62 >= TWO_53 * TWO_62) by (nonlinear_arith)
                requires
                    num == 1000 * w * TWO_62,
                    num >= TWO_53 * (1000 * p),
                    p == TWO_62,
            ;
            assert(w >= TWO_53) by (nonlinear_arith)
                requires
                    w * TWO_62 >= TWO_53 * TWO_62,
            ;
        }
        lemma_round53_exact_thousandths(w, k + 1);
    } else {
        assert(num == (w * rest) * (1000 * p)) by (nonlinear_arith)
            requires
                num == 1000 * w * TWO_62,
                p * rest == TWO_62,
        ;
        if k == 0 {
            assert(p == 1);
        }
        lemma_round_even_exact(w * rest, 1000 * p);
        assert((w * rest) * p == w * TWO_62) by (nonlinear_arith)
            requires
                p * rest == TWO_62,
        ;
    }
}

/// A whole number of dollars reads as that number of dollars and `.00`:
/// `format_milliunits(1000 * d)` is `$`, the decimal numeral of `d` and
/// `.00`, so the dollars shown are the milliunits divided by 1000. This
/// holds for every amount below 2^53 milliunits, where the amount is a
/// double exactly.
pub proof fn law_whole_dollars_text(d: nat)
    requires
        1000 * d < TWO_53,
    ensures
        money_text((1000 * d) as int) == seq!['$'] + decimal(d) + seq!['.', '0', '0'],
{
    let m: nat = 1000 * d;
    assert(abs(m as int) == m);
    lemma_double_of_small(m);
    assert(double_of(m) * (TWO_62 as nat) == 1000 * d * (TWO_62 as nat));
    lemma_round53_exact_thousandths(d, 0);
    assert(thousandth_units(m) == d * (TWO_62 as nat));
    assert(100 * (d * (TWO_62 as nat)) == (100 * d) * (TWO_62 as nat)) by (nonlinear_arith);
    lemma_round_even_exact(100 * d, TWO_62 as nat);
    let c = cents(m as int);
    assert(c == 100 * d);
    assert(c / 100 == d);
    assert(c % 100 == 0);
    assert(digit(0) == '0');
}

/// Rounding to the nearest multiple of `den` moves a number by at most
/// half of `den`.
proof fn lemma_round_even_error(n: nat, den: nat)
    requires
        den > 0,
    ensures
        -(den as int) <= 2 * ((round_even(n, den) * den) as int - n as int) <= den as int,
{
    lemma_fundamental_div_mod(n as int, den as int);
    let q = n / den;
    let r = n % den;
    assert(n == den * q + r);
    assert((q + 1) * den == q * den + den) by (nonlinear_arith);
    assert(q * den == den * q) by (nonlinear_arith);
}

/// A quotient below 2^106 units is rounded to a double from the unit 2^k up
/// with an error of at most half of 2^53 units.
proof fn lemma_round53_error(num: nat, den: nat, k: nat)
    requires
        den > 0,
        k <= 53,
        num < TWO_53 * (den * (TWO_53 as nat)),
    ensures
        -((den * (TWO_53 as nat)) as int) <= 2 * ((round53(num, den, k) * den) as int - num as int),
        2 * ((round53(num, den, k) * den) as int - num as int) <= (den * (TWO_53 as nat)) as int,
    decreases 53 - k,
{
    lemma2_to64_rest();
    lemma_pow2_pos(k);
    let p = pow2(k);
    if k < 53 {
        lemma_pow2_strictly_increases(k, 53);
    }
    assert(p <= TWO_53);
    if k < 128 && num >= TWO_53 * (den * p) {
        if k == 53 {
            assert(false);
        }
        lemma_round53_error(num, den, k + 1);
    } else {
        lemma_round_even_error(num, den * p);
        let q = round_even(num, den * p);
        assert(q * (den * p) == (q * p) * den) by (nonlinear_arith);
        assert(den * p <= den * (TWO_53 as nat)) by (nonlinear_arith)
            requires
                p <= TWO_53,
        ;
    }
}

/// The cents shown are those of the amount to within one cent: ten times
/// them lies less than 10 milliunits from the amount's size, for every
/// amount below 2^53 milliunits.
proof fn lemma_cents_within_a_cent(m: int)
    requires
        -(TWO_53 as int) < m < TWO_53 as int,
    ensures
        abs(m) - 10 < 10 * cents(m) < abs(m) + 10,
{
    let a: nat = abs(m) as nat;
    lemma_double_of_small(a);
    let num: nat = a * (TWO_62 as nat);
    assert(num < TWO_53 * (1000 * (TWO_53 as nat))) by (nonlinear_arith)
        requires
            a < TWO_53,
            num == a * TWO_62,
    ;
    lemma_round53_error(num, 1000, 0);
    let t = thousandth_units(a);
    assert(t == round53(num, 1000, 0));
    lemma_round_even_error(100 * t, TWO_62 as nat);
    let c = cents(m);
    assert(c == round_even(100 * t, TWO_62 as nat));
    let e1: int = (c * (TWO_62 as nat)) as int - (100 * t) as int;
    let e2: int = (t * 1000) as int - num as int;
    assert(10 * (c as int) * (TWO_62 as int) - (a as int) * (TWO_62 as int) == 10 * e1 + e2) by (nonlinear_arith)
        requires
            e1 == c * TWO_62 - 100 * t,
            e2 == t * 1000 - num,
            num == a * TWO_62,
    ;
    assert(10 * (c as int) < (a as int) + 10) by (nonlinear_arith)
        requires
            10 * (c as int) * (TWO_62 as int) - (a as int) * (TWO_62 as int) == 10 * e1 + e2,
            2 * e1 <= TWO_62,
            2 * e2 <= 1000 * TWO_53,
    ;
    assert(10 * (c as int) > (a as int) - 10) by (nonlinear_arith)
        requires
            10 * (c as int) * (TWO_62 as int) - (a as int) * (TWO_62 as int) == 10 * e1 + e2,
            -(TWO_62 as int) <= 2 * e1,
            -(1000 * TWO_53) <= 2 * e2,
    ;
}

/// The text shows the amount to the cent: for every amount below 2^53
/// milliunits, `format_milliunits(m)` is `-` when `m` is negative, then `$`,
/// then a number of cents `c` written as dollars and two decimals, where
/// `10 * c` is less than 10 milliunits away from the size of `m`.
pub proof fn law_amount_text_to_the_cent(m: int)
    requires
        -(TWO_53 as int) < m < TWO_53 as int,
    ensures
        exists|c: nat|
            abs(m) - 10 < 10 * c < abs(m) + 10 && money_text(m) == (if m < 0 {
                seq!['-']
            } else {
                Seq::<char>::empty()
            }) + seq!['$'] + #[trigger] decimal(c / 100) + seq!['.', digit((c % 100) / 10), digit(c % 10)],
{
    lemma_cents_within_a_cent(m);
    let c = cents(m);
    let body = seq!['$'] + decimal(c / 100) + seq!['.', digit((c % 100) / 10), digit(c % 10)];
    if m >= 0 {
        assert(Seq::<char>::empty() + body =~= body);
    }
    assert(abs(m) - 10 < 10 * c < abs(m) + 10 && money_text(m) == (if m < 0 {
        seq!['-']
    } else {
        Seq::<char>::empty()
    }) + seq!['$'] + decimal(c / 100) + seq!['.', digit((c % 100) / 10), digit(c % 10)]);
}

/// An amount in whole cents is shown exactly: for every amount below 2^53
/// milliunits that is a multiple of 10, with `c` its size in cents,
/// `format_milliunits(m)` is `-` when `m` is negative, then `$`, `c / 100`
/// in decimal, `.` and the two digits of `c % 100`.
pub proof fn law_whole_cents_text(m: int)
    requires
        -(TWO_53 as int) < m < TWO_53 as int,
        m % 10 == 0,
    ensures
        money_text(m) == (if m < 0 {
            seq!['-']
        } else {
            Seq::<char>::empty()
        }) + seq!['$'] + decimal((abs(m) / 10) as nat / 100) + seq![
            '.',
            digit(((abs(m) / 10) as nat % 100) / 10),
            digit((abs(m) / 10) as nat % 10),
        ],
{
    lemma_cents_within_a_cent(m);
    assert(abs(m) % 10 == 0);
    assert(cents(m) == abs(m) / 10);
    let c = cents(m);
    let body = seq!['$'] + decimal(c / 100) + seq!['.', digit((c % 100) / 10), digit(c % 10)];
    if m >= 0 {
        assert(Seq::<char>::empty() + body =~= body);
    }
}

/// Format milliunits as a display string, such as `$1234.57` or `-$12.35`:
/// the amount in dollars as a double, printed with two decimals.
pub fn format_milliunits(milliunits: i64) -> (r: String)
    ensures
        r@ == money_text(milliunits as int),
{
    let a: u128 = if milliunits < 0 {
        (0i128 - milliunits as i128) as u128
    } else {
        milliunits as u128
    };
    assert(a as int == abs(milliunits as int));
    let f = round53_exec(a, 1);
    assert(f <= 0x8000_0000_0000_1000u128) by (nonlinear_arith)
        requires
            f * 1 * TWO_53 <= a * (TWO_53 + 2) + TWO_53 * 1,
            a <= 0x8000_0000_0000_0000u128,
    ;
    let x = f * TWO_62;
    let t = round53_exec(x, 1000);
    assert(t <= 0x10_0000_0000_0000_0000_0000_0000_0000u128) by (nonlinear_arith)
        requires
            t * 1000 * TWO_53 <= x * (TWO_53 + 2) + TWO_53 * 1000,
            x <= 0x2000_0000_0000_0400_0000_0000_0000_0000u128,
    ;
    let c = round_even_exec(100 * t, TWO_62);
    assert(c == cents(milliunits as int));
    let mut r = String::new();
    if milliunits < 0 {
        push_char(&mut r, '-');
    }
    push_char(&mut r, '$');
    push_decimal(&mut r, c / 100);
    push_char(&mut r, '.');
    push_char(&mut r, digit_exec((c % 100) / 10));
    push_char(&mut r, digit_exec(c % 10));
    proof {
        let body = seq!['$'] + decimal((c / 100) as nat) + seq![
            '.',
            digit(((c % 100) / 10) as nat),
            digit((c % 10) as nat),
        ];
        if milliunits < 0 {
            assert(r@ == seq!['-'] + body);
        } else {
            assert(r@ == body);
        }
    }
    r
}

} // verus!
