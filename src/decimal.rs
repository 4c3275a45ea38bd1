use vstd::prelude::*;

use crate::text::{after, before, chars_of, find, push_chars, string_of, sub_chars};

verus! {

/// A signed decimal quantity held exactly, as a whole number of millionths.
/// Times, rates, volumes and speed factors are all carried in this form.
#[derive(Clone, Copy, Debug, PartialEq, Eq, Structural)]
pub struct Decimal {
    pub micros: i128,
}

/// Millionths in one unit.
pub const SCALE: i128 = 1_000_000;

/// The largest magnitude, in millionths, that a parsed decimal may have.
pub const LIMIT: i128 = 1_000_000_000_000_000_000;

pub open spec fn is_digit(c: char) -> bool {
    '0' <= c && c <= '9'
}

pub open spec fn digit_value(c: char) -> int {
    c as int - '0' as int
}

pub open spec fn digit_char(d: int) -> char {
    (('0' as int) + d) as char
}

pub open spec fn all_digits(s: Seq<char>) -> bool {
    forall|i: int| 0 <= i < s.len() ==> is_digit(#[trigger] s[i])
}

/// The number that a string of decimal digits denotes.
pub open spec fn nat_of(s: Seq<char>) -> int
    decreases s.len(),
{
    if s.len() == 0 {
        0
    } else {
        nat_of(s.drop_last()) * 10 + digit_value(s.last())
    }
}

pub open spec fn pow10(n: nat) -> int
    decreases n,
{
    if n == 0 {
        1
    } else {
        10 * pow10((n - 1) as nat)
    }
}

/// Fraction digits as millionths: the first six count, the rest are cut off.
pub open spec fn frac_micros(f: Seq<char>) -> int {
    if f.len() >= 6 {
        nat_of(f.take(6))
    } else {
        nat_of(f) * pow10((6 - f.len()) as nat)
    }
}

/// `digits[.digits]`, with at least one digit, as millionths.
pub open spec fn unsigned_micros(s: Seq<char>) -> Option<int> {
    let ip = before(s, seq!['.']);
    let fp = match after(s, seq!['.']) {
        Some(f) => f,
        None => Seq::empty(),
    };
    if all_digits(ip) && all_digits(fp) && ip.len() + fp.len() > 0 {
        Some(nat_of(ip) * 1_000_000 + frac_micros(fp))
    } else {
        None
    }
}

pub open spec fn unsigned_part(s: Seq<char>) -> Seq<char> {
    if s.len() > 0 && (s[0] == '-' || s[0] == '+') {
        s.skip(1)
    } else {
        s
    }
}

/// The value, in millionths, of a decimal number written with an optional sign,
/// if the text is one and its magnitude is at most `LIMIT`.
pub open spec fn decimal_of(s: Seq<char>) -> Option<int> {
    match unsigned_micros(unsigned_part(s)) {
        Some(v) => if v <= LIMIT {
            if s.len() > 0 && s[0] == '-' {
                Some(-v)
            } else {
                Some(v)
            }
        } else {
            None
        },
        None => None,
    }
}

pub open spec fn nat_text(n: nat) -> Seq<char>
    decreases n,
{
    if n < 10 {
        seq![digit_char(n as int)]
    } else {
        nat_text(n / 10).push(digit_char((n % 10) as int))
    }
}

/// The last `w` decimal digits of `n`, zero-padded.
pub open spec fn padded(n: nat, w: nat) -> Seq<char>
    decreases w,
{
    if w == 0 {
        Seq::empty()
    } else {
        padded(n / 10, (w - 1) as nat).push(digit_char((n % 10) as int))
    }
}

/// A fraction of `w` digits written without its trailing zeros.
pub open spec fn frac_text(f: nat, w: nat) -> Seq<char>
    decreases w,
{
    if w == 0 || f == 0 {
        Seq::empty()
    } else if f % 10 == 0 {
        frac_text(f / 10, (w - 1) as nat)
    } else {
        padded(f, w)
    }
}

/// The magnitude, in millionths, below which a value can be written out.
pub open spec fn text_bound() -> int {
    1_000_000_000_000_000_000_000_000_000_000_000_000
}

pub open spec fn abs(m: int) -> nat {
    if m < 0 {
        (-m) as nat
    } else {
        m as nat
    }
}

/// The shortest decimal text of a value in millionths: a sign where negative,
/// the whole part, and the fraction without trailing zeros.
pub open spec fn decimal_text(m: int) -> Seq<char> {
    let a = abs(m);
    let sign: Seq<char> = if m < 0 {
        seq!['-']
    } else {
        Seq::empty()
    };
    let whole = nat_text(a / 1_000_000);
    if a % 1_000_000 == 0 {
        sign + whole
    } else {
        sign + whole + seq!['.'] + frac_text(a % 1_000_000, 6)
    }
}

/// A product of two values in millionths, cut toward zero to millionths.
pub open spec fn mul_micros(a: int, b: int) -> int {
    let p: int = (abs(a) * abs(b)) as int / 1_000_000;
    if (a < 0) != (b < 0) {
        -p
    } else {
        p
    }
}

/// One divided by a non-zero value, in millionths, rounded half away from zero.
pub open spec fn recip_micros(b: int) -> int {
    let q: int = (1_000_000_000_000 + abs(b) / 2) as int / abs(b) as int;
    if b < 0 {
        -q
    } else {
        q
    }
}

/// The whole units of a value, cut toward zero, and 0 for a negative value.
pub open spec fn whole_units(m: int) -> int {
    if m < 0 {
        0
    } else {
        m / 1_000_000
    }
}

impl Decimal {
    pub open spec fn wf(self) -> bool {
        -LIMIT <= self.micros <= LIMIT
    }

    pub fn from_micros(micros: i128) -> (r: Decimal)
        ensures
            r.micros == micros,
    {
        Decimal { micros }
    }

    pub fn from_units(units: i32) -> (r: Decimal)
        ensures
            r.micros == units * 1_000_000,
            r.wf(),
    {
        Decimal { micros: units as i128 * SCALE }
    }

    /// Text of the value; see `decimal_text`.
    pub fn text(&self) -> (r: String)
        requires
            abs(self.micros as int) < text_bound(),
        ensures
            r@ == decimal_text(self.micros as int),
    {
        let v = self.text_chars();
        string_of(&v)
    }

    pub fn text_chars(&self) -> (r: Vec<char>)
        requires
            abs(self.micros as int) < text_bound(),
        ensures
            r@ == decimal_text(self.micros as int),
    {
        let m = self.micros;
        let a: u128 = if m < 0 {
            (0 - m) as u128
        } else {
            m as u128
        };
        assert(a == abs(m as int));
        let mut out: Vec<char> = Vec::new();
        if m < 0 {
            out.push('-');
        }
        push_nat(&mut out, a / 1_000_000);
        if a % 1_000_000 != 0 {
            out.push('.');
            push_frac(&mut out, a % 1_000_000, 6);
        }
        proof {
            let sign: Seq<char> = if m < 0 {
                seq!['-']
            } else {
                Seq::empty()
            };
            if a % 1_000_000 == 0 {
                assert(out@ =~= sign + nat_text((a / 1_000_000) as nat));
            } else {
                assert(out@ =~= sign + nat_text((a / 1_000_000) as nat) + seq!['.'] + frac_text(
                    (a % 1_000_000) as nat,
                    6,
                ));
            }
        }
        out
    }

    pub fn sub(&self, o: &Decimal) -> (r: Decimal)
        requires
            self.wf(),
            o.wf(),
        ensures
            r.micros == self.micros - o.micros,
    {
        Decimal { micros: self.micros - o.micros }
    }

    pub fn mul(&self, o: &Decimal) -> (r: Decimal)
        requires
            self.wf(),
            o.wf(),
        ensures
            r.micros == mul_micros(self.micros as int, o.micros as int),
            abs(r.micros as int) <= 1_000_000_000_000_000_000_000_000_000_000,
    {
        let a = magnitude(self.micros);
        let b = magnitude(o.micros);
        assert(a * b <= 1_000_000_000_000_000_000_000_000_000_000_000_000) by (nonlinear_arith)
            requires
                a <= 1_000_000_000_000_000_000,
                b <= 1_000_000_000_000_000_000,
        ;
        let p = (a * b) / 1_000_000;
        if (self.micros < 0) != (o.micros < 0) {
            Decimal { micros: -(p as i128) }
        } else {
            Decimal { micros: p as i128 }
        }
    }

    /// One divided by the value; `None` for zero, whose reciprocal is infinite.
    pub fn recip(&self) -> (r: Option<Decimal>)
        requires
            self.wf(),
        ensures
            r is None <==> self.micros == 0,
            r is Some ==> r->0.micros == recip_micros(self.micros as int) && r->0.wf(),
    {
        if self.micros == 0 {
            return None;
        }
        let b = magnitude(self.micros);
        let q = (1_000_000_000_000 + b / 2) / b;
        assert(q <= 1_000_000_000_000 + b / 2);
        if self.micros < 0 {
            Some(Decimal { micros: -(q as i128) })
        } else {
            Some(Decimal { micros: q as i128 })
        }
    }

    /// Whole units, cut toward zero; 0 where negative.
    pub fn whole(&self) -> (r: u64)
        requires
            self.wf(),
        ensures
            r == whole_units(self.micros as int),
    {
        if self.micros < 0 {
            0
        } else {
            (self.micros / SCALE) as u64
        }
    }
}

fn magnitude(m: i128) -> (r: u128)
    requires
        abs(m as int) <= LIMIT,
    ensures
        r == abs(m as int),
{
    if m < 0 {
        (0 - m) as u128
    } else {
        m as u128
    }
}

proof fn lemma_nat_of_bound(s: Seq<char>)
    requires
        all_digits(s),
    ensures
        0 <= nat_of(s) < pow10(s.len()),
    decreases s.len(),
{
    if s.len() > 0 {
        assert(all_digits(s.drop_last()));
        lemma_nat_of_bound(s.drop_last());
        assert(is_digit(s[s.len() - 1]));
    }
}

proof fn lemma_nat_of_prefix(s: Seq<char>, k: int)
    requires
        all_digits(s),
        0 <= k <= s.len(),
    ensures
        nat_of(s.take(k)) <= nat_of(s),
    decreases s.len(),
{
    if k == s.len() {
        assert(s.take(k) =~= s);
    } else {
        let d = s.drop_last();
        assert(all_digits(d));
        lemma_nat_of_prefix(d, k);
        assert(d.take(k) =~= s.take(k));
        lemma_nat_of_bound(d);
        assert(is_digit(s[s.len() - 1]));
    }
}

/// A decimal number written without a leading minus sign is not negative.
pub proof fn lemma_decimal_nonneg(s: Seq<char>)
    requires
        s.len() == 0 || s[0] != '-',
    ensures
        decimal_of(s) is Some ==> decimal_of(s)->0 >= 0,
{
    let b = unsigned_part(s);
    let ip = before(b, seq!['.']);
    let fp = match after(b, seq!['.']) {
        Some(f) => f,
        None => Seq::empty(),
    };
    if all_digits(ip) && all_digits(fp) {
        lemma_nat_of_bound(ip);
        if fp.len() >= 6 {
            assert(all_digits(fp.take(6)));
            lemma_nat_of_bound(fp.take(6));
        } else {
            lemma_nat_of_bound(fp);
            lemma_pow10_pos((6 - fp.len()) as nat);
            assert(nat_of(fp) * pow10((6 - fp.len()) as nat) >= 0) by (nonlinear_arith)
                requires
                    nat_of(fp) >= 0,
                    pow10((6 - fp.len()) as nat) > 0,
            ;
        }
    }
}

proof fn lemma_pow10_pos(n: nat)
    ensures
        pow10(n) > 0,
    decreases n,
{
    if n > 0 {
        lemma_pow10_pos((n - 1) as nat);
    }
}

fn all_digits_exec(v: &Vec<char>) -> (r: bool)
    ensures
        r == all_digits(v@),
{
    let mut i: usize = 0;
    while i < v.len()
        invariant
            i <= v@.len(),
            forall|j: int| 0 <= j < i ==> is_digit(#[trigger] v@[j]),
        decreases v.len() - i,
    {
        if !('0' <= v[i] && v[i] <= '9') {
            return false;
        }
        i = i + 1;
    }
    true
}

/// The number that a string of digits denotes, where it is at most 10^12.
fn digits_value(v: &Vec<char>) -> (r: Option<u64>)
    requires
        all_digits(v@),
    ensures
        r is None <==> nat_of(v@) > 1_000_000_000_000,
        r is Some ==> r->0 == nat_of(v@),
{
    let mut acc: u64 = 0;
    let mut i: usize = 0;
    while i < v.len()
        invariant
            all_digits(v@),
            i <= v@.len(),
            acc == nat_of(v@.take(i as int)),
            acc <= 1_000_000_000_000,
        decreases v.len() - i,
    {
        assert(is_digit(v@[i as int]));
        let d = (v[i] as u32 - '0' as u32) as u64;
        assert(v@.take(i + 1).drop_last() =~= v@.take(i as int));
        let next = acc * 10 + d;
        if next > 1_000_000_000_000 {
            proof {
                lemma_nat_of_prefix(v@, i + 1);
            }
            return None;
        }
        acc = next;
        i = i + 1;
    }
    assert(v@.take(v@.len() as int) =~= v@);
    Some(acc)
}

fn frac_value(f: &Vec<char>) -> (r: u64)
    requires
        all_digits(f@),
    ensures
        r == frac_micros(f@),
        r < 1_000_000,
{
    let k: usize = if f.len() >= 6 {
        6
    } else {
        f.len()
    };
    let head = sub_chars(f, 0, k);
    assert(head@ =~= f@.take(k as int));
    assert(all_digits(head@));
    proof {
        lemma_nat_of_bound(head@);
        reveal_with_fuel(pow10, 7);
    }
    let v = match digits_value(&head) {
        Some(v) => v,
        None => {
            return 0;
        },
    };
    let mut r = v;
    let mut w: usize = k;
    assert(pow10(0) == 1);
    while w < 6
        invariant
            k <= w <= 6,
            r == nat_of(head@) * pow10((w - k) as nat),
            r < pow10(w as nat),
        decreases 6 - w,
    {
        proof {
            reveal_with_fuel(pow10, 7);
            assert(pow10((w + 1 - k) as nat) == 10 * pow10((w - k) as nat));
            assert(pow10((w + 1) as nat) == 10 * pow10(w as nat));
            let a = nat_of(head@);
            let b = pow10((w - k) as nat);
            assert(a * (10 * b) == (a * b) * 10) by (nonlinear_arith);
        }
        r = r * 10;
        w = w + 1;
    }
    if f.len() >= 6 {
        assert(r == nat_of(f@.take(6)));
    } else {
        assert(head@ =~= f@);
    }
    r
}

/// Reads a decimal number: see `decimal_of`.
pub fn parse_decimal(s: &Vec<char>) -> (r: Option<Decimal>)
    ensures
        r is Some <==> decimal_of(s@) is Some,
        r is Some ==> r->0.micros == decimal_of(s@)->0 && r->0.wf(),
{
    let neg = s.len() > 0 && s[0] == '-';
    let body = if s.len() > 0 && (s[0] == '-' || s[0] == '+') {
        sub_chars(s, 1, s.len())
    } else {
        sub_chars(s, 0, s.len())
    };
    assert(body@ =~= unsigned_part(s@));
    let dot = chars_of(".");
    proof {
        reveal_strlit(".");
    }
    assert(dot@ =~= seq!['.']);
    let (ip, fp) = match find(&body, &dot) {
        Some(k) => (sub_chars(&body, 0, k), sub_chars(&body, k + 1, body.len())),
        None => (sub_chars(&body, 0, body.len()), Vec::new()),
    };
    assert(ip@ =~= before(body@, seq!['.']));
    assert(fp@ =~= match after(body@, seq!['.']) {
        Some(f) => f,
        None => Seq::empty(),
    });
    if !all_digits_exec(&ip) || !all_digits_exec(&fp) || ip.len() + fp.len() == 0 {
        return None;
    }
    let frac = frac_value(&fp);
    let whole = match digits_value(&ip) {
        Some(w) => w,
        None => {
            assert(nat_of(ip@) * 1_000_000 > LIMIT) by (nonlinear_arith)
                requires
                    nat_of(ip@) > 1_000_000_000_000,
            ;
            return None;
        },
    };
    let v: i128 = whole as i128 * SCALE + frac as i128;
    if v > LIMIT {
        return None;
    }
    if neg {
        Some(Decimal { micros: -v })
    } else {
        Some(Decimal { micros: v })
    }
}

pub fn parse_decimal_str(s: &str) -> (r: Option<Decimal>)
    ensures
        r is Some <==> decimal_of(s@) is Some,
        r is Some ==> r->0.micros == decimal_of(s@)->0 && r->0.wf(),
{
    let v = chars_of(s);
    parse_decimal(&v)
}

fn digit_of(d: u128) -> (c: char)
    requires
        d < 10,
    ensures
        c == digit_char(d as int),
{
    (('0' as u8) + (d as u8)) as char
}

fn push_nat(out: &mut Vec<char>, n: u128)
    ensures
        final(out)@ == old(out)@ + nat_text(n as nat),
    decreases n,
{
    if n >= 10 {
        push_nat(out, n / 10);
    }
    out.push(digit_of(n % 10));
    proof {
        if n >= 10 {
            assert(final(out)@ =~= old(out)@ + nat_text(n as nat));
        } else {
            assert(final(out)@ =~= old(out)@ + nat_text(n as nat));
        }
    }
}

fn push_padded(out: &mut Vec<char>, n: u128, w: u32)
    ensures
        final(out)@ == old(out)@ + padded(n as nat, w as nat),
    decreases w,
{
    if w == 0 {
        assert(final(out)@ =~= old(out)@ + padded(n as nat, w as nat));
        return;
    }
    push_padded(out, n / 10, w - 1);
    out.push(digit_of(n % 10));
    assert(final(out)@ =~= old(out)@ + padded(n as nat, w as nat));
}

fn push_frac(out: &mut Vec<char>, f: u128, w: u32)
    ensures
        final(out)@ == old(out)@ + frac_text(f as nat, w as nat),
    decreases w,
{
    if w == 0 || f == 0 {
        assert(final(out)@ =~= old(out)@ + frac_text(f as nat, w as nat));
    } else if f % 10 == 0 {
        push_frac(out, f / 10, w - 1);
    } else {
        push_padded(out, f, w);
    }
}

} // verus!
