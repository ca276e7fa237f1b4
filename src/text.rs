use vstd::prelude::*;

use crate::bird::{Bird, BirdModel};
use crate::heading::{DirectionVector, Heading, UNIT};

verus! {

/// The decimal digits, in order.
pub open spec fn digits() -> Seq<char> {
    seq!['0', '1', '2', '3', '4', '5', '6', '7', '8', '9']
}

/// The decimal text of `n`, without leading zeros.
pub open spec fn decimal(n: nat) -> Seq<char>
    decreases n,
{
    if n < 10 {
        seq![digits()[n as int]]
    } else {
        decimal(n / 10).push(digits()[(n % 10) as int])
    }
}

/// The last `w` decimal digits of `n`, with leading zeros.
pub open spec fn padded(n: nat, w: nat) -> Seq<char>
    decreases w,
{
    if w == 0 {
        seq![]
    } else {
        padded(n / 10, (w - 1) as nat).push(digits()[(n % 10) as int])
    }
}

/// `s` without its trailing zeros.
pub open spec fn trim_zeros(s: Seq<char>) -> Seq<char>
    decreases s.len(),
{
    if s.len() > 0 && s.last() == '0' {
        trim_zeros(s.drop_last())
    } else {
        s
    }
}

/// The shortest text of a fixed-point value at scale `UNIT`: its sign, its
/// whole part and, where it has a fraction, a point and the six decimals of
/// the fraction without trailing zeros.
pub open spec fn fixed_text(v: int) -> Seq<char> {
    let m: nat = if v < 0 {
        (-v) as nat
    } else {
        v as nat
    };
    let sign: Seq<char> = if v < 0 {
        seq!['-']
    } else {
        seq![]
    };
    let f: nat = m % (UNIT as nat);
    let fraction: Seq<char> = if f == 0 {
        seq![]
    } else {
        seq!['.'] + trim_zeros(padded(f, 6))
    };
    sign + decimal(m / (UNIT as nat)) + fraction
}

/// The text of a direction: `(cos, sin)`.
pub open spec fn direction_text(h: Heading) -> Seq<char> {
    seq!['('] + fixed_text(h.dx) + seq![',', ' '] + fixed_text(h.dy) + seq![')']
}

/// The text of a bird: `[x: …; y: …; direction: (cos, sin)]`.
pub open spec fn bird_text(b: BirdModel) -> Seq<char> {
    seq!['[', 'x', ':', ' '] + fixed_text(b.x) + seq![';', ' ', 'y', ':', ' '] + fixed_text(b.y)
        + seq![';', ' ', 'd', 'i', 'r', 'e', 'c', 't', 'i', 'o', 'n', ':', ' '] + direction_text(
        b.heading,
    ) + seq![']']
}

/// Relies on std's `FromIterator<char>` for `String`: the string of the
/// characters, in order.
#[verifier::external_body]
fn string_of(cs: Vec<char>) -> (r: String)
    ensures
        r@ == cs@,
{
    cs.into_iter().collect()
}

fn digit(d: u64) -> (r: char)
    requires
        d < 10,
    ensures
        r == digits()[d as int],
{
    if d == 0 {
        '0'
    } else if d == 1 {
        '1'
    } else if d == 2 {
        '2'
    } else if d == 3 {
        '3'
    } else if d == 4 {
        '4'
    } else if d == 5 {
        '5'
    } else if d == 6 {
        '6'
    } else if d == 7 {
        '7'
    } else if d == 8 {
        '8'
    } else {
        '9'
    }
}

fn push_decimal(out: &mut Vec<char>, n: u64)
    ensures
        final(out)@ == old(out)@ + decimal(n as nat),
    decreases n,
{
    if n >= 10 {
        push_decimal(out, n / 10);
    }
    out.push(digit(n % 10));
    proof {
        if n >= 10 {
            assert(old(out)@ + decimal(n as nat) =~= old(out)@ + decimal((n / 10) as nat) + seq![
                digits()[(n % 10) as int],
            ]);
        }
    }
}

fn push_padded(out: &mut Vec<char>, n: u64, w: u64)
    ensures
        final(out)@ == old(out)@ + padded(n as nat, w as nat),
    decreases w,
{
    if w > 0 {
        push_padded(out, n / 10, w - 1);
        out.push(digit(n % 10));
        assert(old(out)@ + padded(n as nat, w as nat) =~= old(out)@ + padded(
            (n / 10) as nat,
            (w - 1) as nat,
        ) + seq![digits()[(n % 10) as int]]);
    } else {
        assert(old(out)@ + padded(n as nat, w as nat) =~= old(out)@);
    }
}

fn push_fixed(out: &mut Vec<char>, v: i64)
    ensures
        final(out)@ == old(out)@ + fixed_text(v as int),
{
    let m: u64 = if v < 0 {
        (-(v as i128)) as u64
    } else {
        v as u64
    };
    let ghost start = out@;
    if v < 0 {
        out.push('-');
    }
    let ghost signed = out@;
    push_decimal(out, m / (UNIT as u64));
    let ghost whole = out@;
    let f = m % (UNIT as u64);
    if f != 0 {
        out.push('.');
        let mut decimals: Vec<char> = Vec::new();
        push_padded(&mut decimals, f, 6);
        push_trimmed(out, decimals);
    }
    proof {
        let sign: Seq<char> = if v < 0 {
            seq!['-']
        } else {
            seq![]
        };
        assert(signed =~= start + sign);
        assert(seq![] + padded(f as nat, 6) == padded(f as nat, 6));
        assert(out@ =~= start + fixed_text(v as int));
    }
}

fn push_trimmed(out: &mut Vec<char>, cs: Vec<char>)
    ensures
        final(out)@ == old(out)@ + trim_zeros(cs@),
{
    let mut cs = cs;
    let ghost full = cs@;
    while cs.len() > 0 && cs[cs.len() - 1] == '0'
        invariant
            trim_zeros(cs@) == trim_zeros(full),
        decreases cs@.len(),
    {
        let ghost before = cs@;
        cs.pop();
        assert(cs@ =~= before.drop_last());
    }
    assert(trim_zeros(cs@) == cs@);
    push_literal(out, &cs);
}

fn push_direction(out: &mut Vec<char>, d: &DirectionVector)
    ensures
        final(out)@ == old(out)@ + direction_text(d@),
{
    let ghost start = out@;
    out.push('(');
    let ghost a = out@;
    push_fixed(out, d.dx());
    let ghost b = out@;
    out.push(',');
    out.push(' ');
    let ghost c = out@;
    push_fixed(out, d.dy());
    let ghost e = out@;
    out.push(')');
    proof {
        assert(a =~= start + seq!['(']);
        assert(c =~= b + seq![',', ' ']);
        assert(out@ =~= e + seq![')']);
        assert(out@ =~= start + direction_text(d@));
    }
}

impl DirectionVector {
    /// The cached cos and sin as text: `(cos, sin)`.
    pub fn to_string(&self) -> (r: String)
        ensures
            r@ == direction_text(self@),
    {
        let mut out: Vec<char> = Vec::new();
        push_direction(&mut out, self);
        assert(out@ =~= direction_text(self@));
        string_of(out)
    }
}

fn push_literal(out: &mut Vec<char>, cs: &Vec<char>)
    ensures
        final(out)@ == old(out)@ + cs@,
{
    let ghost start = out@;
    let mut i: usize = 0;
    while i < cs.len()
        invariant
            0 <= i <= cs@.len(),
            out@ == start + cs@.take(i as int),
        decreases cs@.len() - i,
    {
        out.push(cs[i]);
        i = i + 1;
        assert(out@ =~= start + cs@.take(i as int));
    }
    assert(cs@.take(i as int) =~= cs@);
}

impl Bird {
    /// The bird as text: `[x: …; y: …; direction: (cos, sin)]`.
    pub fn to_string(&self) -> (r: String)
        ensures
            r@ == bird_text(self@),
    {
        let mut out: Vec<char> = Vec::new();
        push_literal(&mut out, &vec!['[', 'x', ':', ' ']);
        push_fixed(&mut out, self.coord_x());
        push_literal(&mut out, &vec![';', ' ', 'y', ':', ' ']);
        push_fixed(&mut out, self.coord_y());
        push_literal(
            &mut out,
            &vec![';', ' ', 'd', 'i', 'r', 'e', 'c', 't', 'i', 'o', 'n', ':', ' '],
        );
        push_direction(&mut out, &self.direction());
        push_literal(&mut out, &vec![']']);
        assert(out@ =~= bird_text(self@));
        string_of(out)
    }
}

} // verus!
