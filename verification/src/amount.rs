use vstd::prelude::*;

verus! {

/// Satoshis in one bitcoin.
pub const SATS_PER_BTC: u64 = 100_000_000;

/// The character of a decimal digit.
pub open spec fn digit_char(d: nat) -> char {
    if d == 0 { '0' }
    else if d == 1 { '1' }
    else if d == 2 { '2' }
    else if d == 3 { '3' }
    else if d == 4 { '4' }
    else if d == 5 { '5' }
    else if d == 6 { '6' }
    else if d == 7 { '7' }
    else if d == 8 { '8' }
    else { '9' }
}

/// The value of a decimal digit character (0 for any other character).
pub open spec fn digit_value(c: char) -> nat {
    if c == '1' { 1 }
    else if c == '2' { 2 }
    else if c == '3' { 3 }
    else if c == '4' { 4 }
    else if c == '5' { 5 }
    else if c == '6' { 6 }
    else if c == '7' { 7 }
    else if c == '8' { 8 }
    else if c == '9' { 9 }
    else { 0 }
}

/// The shortest decimal text of `n` (`0` for zero).
pub open spec fn decimal(n: nat) -> Seq<char>
    decreases n,
{
    if n < 10 {
        seq![digit_char(n)]
    } else {
        decimal(n / 10).push(digit_char(n % 10))
    }
}

/// The last `width` decimal digits of `n`, with leading zeros.
pub open spec fn fixed_digits(n: nat, width: nat) -> Seq<char>
    decreases width,
{
    if width == 0 {
        seq![]
    } else {
        fixed_digits(n / 10, (width - 1) as nat).push(digit_char(n % 10))
    }
}

/// An amount of sats as bitcoin with eight decimals: `12.34500000` for
/// 1_234_500_000 sats.
pub open spec fn btc_text(sats: nat) -> Seq<char> {
    decimal(sats / 100_000_000) + seq!['.'] + fixed_digits(sats % 100_000_000, 8)
}

/// The number that a run of decimal digits denotes.
pub open spec fn digits_value(s: Seq<char>) -> nat
    decreases s.len(),
{
    if s.len() == 0 {
        0
    } else {
        digits_value(s.drop_last()) * 10 + digit_value(s.last())
    }
}

pub open spec fn pow10(w: nat) -> nat
    decreases w,
{
    if w == 0 { 1 } else { 10 * pow10((w - 1) as nat) }
}

/// The text of a single digit.
fn digit_str(d: u64) -> (r: &'static str)
    requires
        d < 10,
    ensures
        r@ == seq![digit_char(d as nat)],
{
    proof {
        reveal_strlit("0");
        reveal_strlit("1");
        reveal_strlit("2");
        reveal_strlit("3");
        reveal_strlit("4");
        reveal_strlit("5");
        reveal_strlit("6");
        reveal_strlit("7");
        reveal_strlit("8");
        reveal_strlit("9");
    }
    let r = if d == 0 { "0" }
    else if d == 1 { "1" }
    else if d == 2 { "2" }
    else if d == 3 { "3" }
    else if d == 4 { "4" }
    else if d == 5 { "5" }
    else if d == 6 { "6" }
    else if d == 7 { "7" }
    else if d == 8 { "8" }
    else { "9" };
    assert(r@ =~= seq![digit_char(d as nat)]);
    r
}

/// Appends the decimal text of `n`.
pub fn push_decimal(s: &mut String, n: u64)
    ensures
        final(s)@ == old(s)@ + decimal(n as nat),
    decreases n,
{
    if n >= 10 {
        push_decimal(s, n / 10);
    }
    s.append(digit_str(n % 10));
    assert(final(s)@ =~= old(s)@ + decimal(n as nat));
}

/// Appends the last `width` decimal digits of `n`, zero-padded.
fn push_fixed_digits(s: &mut String, n: u64, width: u64)
    ensures
        final(s)@ == old(s)@ + fixed_digits(n as nat, width as nat),
    decreases width,
{
    if width == 0 {
        assert(fixed_digits(n as nat, 0) =~= Seq::<char>::empty());
        assert(s@ =~= old(s)@ + fixed_digits(n as nat, width as nat));
        return;
    }
    push_fixed_digits(s, n / 10, width - 1);
    s.append(digit_str(n % 10));
    assert(final(s)@ =~= old(s)@ + fixed_digits(n as nat, width as nat));
}

/// The decimal text of `n`.
pub fn decimal_string(n: u64) -> (r: String)
    ensures
        r@ == decimal(n as nat),
{
    let mut s = String::new();
    push_decimal(&mut s, n);
    assert(s@ =~= decimal(n as nat));
    s
}

/// An amount of sats written in bitcoin with eight decimals, as the node's
/// RPC takes amounts.
pub fn btc_string(sats: u64) -> (r: String)
    ensures
        r@ == btc_text(sats as nat),
{
    let mut s = String::new();
    push_decimal(&mut s, sats / SATS_PER_BTC);
    s.append(".");
    push_fixed_digits(&mut s, sats % SATS_PER_BTC, 8);
    proof {
        reveal_strlit(".");
    }
    assert(s@ =~= btc_text(sats as nat));
    s
}

/// The amount that a text in the form of `btc_text` denotes, in sats: the
/// digits before the point count whole bitcoin, the eight after it sats.
pub open spec fn btc_text_value(t: Seq<char>) -> nat {
    digits_value(t.take(t.len() - 9)) * 100_000_000 + digits_value(t.skip(t.len() - 8))
}

proof fn lemma_digit_roundtrip(d: nat)
    requires
        d < 10,
    ensures
        digit_value(digit_char(d)) == d,
{
}

proof fn lemma_digits_value_push(s: Seq<char>, c: char)
    ensures
        digits_value(s.push(c)) == digits_value(s) * 10 + digit_value(c),
{
    assert(s.push(c).drop_last() =~= s);
}

/// The decimal text of `n` denotes `n`.
pub proof fn lemma_decimal_value(n: nat)
    ensures
        digits_value(decimal(n)) == n,
        decimal(n).len() >= 1,
    decreases n,
{
    if n < 10 {
        assert(seq![digit_char(n)] =~= Seq::<char>::empty().push(digit_char(n)));
        lemma_digits_value_push(Seq::<char>::empty(), digit_char(n));
        lemma_digit_roundtrip(n);
    } else {
        lemma_decimal_value(n / 10);
        lemma_digits_value_push(decimal(n / 10), digit_char(n % 10));
        lemma_digit_roundtrip(n % 10);
    }
}

/// `width` zero-padded digits of `n` are `width` long and denote `n` modulo
/// `10^width`.
pub proof fn lemma_fixed_digits_value(n: nat, width: nat)
    ensures
        fixed_digits(n, width).len() == width,
        digits_value(fixed_digits(n, width)) == n % pow10(width),
    decreases width,
{
    if width == 0 {
        assert(fixed_digits(n, width) =~= Seq::<char>::empty());
    } else {
        let w1 = (width - 1) as nat;
        lemma_fixed_digits_value(n / 10, w1);
        lemma_digits_value_push(fixed_digits(n / 10, w1), digit_char(n % 10));
        lemma_digit_roundtrip(n % 10);
        lemma_pow10_positive(w1);
        let p = pow10(w1);
        assert((n / 10) % p * 10 + n % 10 == n % (10 * p)) by (nonlinear_arith)
            requires
                p > 0,
        {
            let q = n / 10;
            let r = n % 10;
            assert(n == q * 10 + r);
            assert(q == (q / p) * p + q % p);
            assert(n == (q / p) * (10 * p) + (q % p * 10 + r));
            assert(0 <= q % p * 10 + r < 10 * p);
            vstd::arithmetic::div_mod::lemma_fundamental_div_mod_converse(
                n as int,
                (10 * p) as int,
                (q / p) as int,
                (q % p * 10 + r) as int,
            );
        }
    }
}

proof fn lemma_pow10_positive(w: nat)
    ensures
        pow10(w) > 0,
    decreases w,
{
    if w > 0 {
        lemma_pow10_positive((w - 1) as nat);
    }
}

/// The text `btc_string` writes for an amount denotes that very amount: the
/// point stands ninth from the end, and whole bitcoin and the eight decimals
/// together give back the sats.
pub proof fn law_btc_text_denotes_amount(sats: nat)
    ensures
        btc_text(sats).len() >= 10,
        btc_text(sats)[btc_text(sats).len() - 9] == '.',
        btc_text_value(btc_text(sats)) == sats,
{
    let whole = decimal(sats / 100_000_000);
    let frac = fixed_digits(sats % 100_000_000, 8);
    let t = btc_text(sats);
    lemma_decimal_value(sats / 100_000_000);
    lemma_fixed_digits_value(sats % 100_000_000, 8);
    assert(pow10(8) == 100_000_000) by {
        reveal_with_fuel(pow10, 9);
    }
    assert(t.take(t.len() - 9) =~= whole);
    assert(t.skip(t.len() - 8) =~= frac);
    assert(sats % 100_000_000 % 100_000_000 == sats % 100_000_000);
}

} // verus!
