use vstd::prelude::*;
use vstd::string::*;

use crate::frame::Measurement;

verus! {

/// The character of the decimal digit `d`.
pub open spec fn digit_char(d: nat) -> char {
    if d == 0 {
        '0'
    } else if d == 1 {
        '1'
    } else if d == 2 {
        '2'
    } else if d == 3 {
        '3'
    } else if d == 4 {
        '4'
    } else if d == 5 {
        '5'
    } else if d == 6 {
        '6'
    } else if d == 7 {
        '7'
    } else if d == 8 {
        '8'
    } else {
        '9'
    }
}

/// The decimal digits of `n`, most significant first, with no leading zero.
pub open spec fn decimal(n: nat) -> Seq<char>
    decreases n,
{
    if n < 10 {
        seq![digit_char(n)]
    } else {
        decimal(n / 10).push(digit_char(n % 10))
    }
}

/// The text form of a measurement: a line with the sensor number, then one
/// line per particle size with its standard and atmospheric values.
pub open spec fn render_spec(m: Measurement) -> Seq<char> {
    "Sensor Number: "@ + decimal(m.num_sensor as nat) + "\nStd PM 1: "@ + decimal(
        m.std_pm1 as nat,
    ) + "; Atm PM 1: "@ + decimal(m.atm_pm1 as nat) + "\nStd PM 2.5: "@ + decimal(
        m.std_pm25 as nat,
    ) + "; Atm PM 2.5: "@ + decimal(m.atm_pm25 as nat) + "\nStd PM 10: "@ + decimal(
        m.std_pm10 as nat,
    ) + "; Atm PM 10: "@ + decimal(m.atm_pm10 as nat)
}

fn digit_str(d: u16) -> (r: &'static str)
    requires
        d < 10,
    ensures
        r@ == seq![digit_char(d as nat)],
{
    proof {
        reveal_strlit("0");
        reveal_strlit("1");
        reveal_strlit("2");
        reveal_strlit("3");
        reveal_strlit("4");
        reveal_strlit("5");
        reveal_strlit("6");
        reveal_strlit("7");
        reveal_strlit("8");
        reveal_strlit("9");
    }
    if d == 0 {
        "0"
    } else if d == 1 {
        "1"
    } else if d == 2 {
        "2"
    } else if d == 3 {
        "3"
    } else if d == 4 {
        "4"
    } else if d == 5 {
        "5"
    } else if d == 6 {
        "6"
    } else if d == 7 {
        "7"
    } else if d == 8 {
        "8"
    } else {
        "9"
    }
}

fn append_decimal(s: &mut String, n: u16)
    ensures
        final(s)@ == old(s)@ + decimal(n as nat),
    decreases n,
{
    if n >= 10 {
        append_decimal(s, n / 10);
    }
    s.append(digit_str(n % 10));
    assert(final(s)@ =~= old(s)@ + decimal(n as nat));
}

/// `t` stands somewhere in `s` as a contiguous run.
pub open spec fn occurs_in(t: Seq<char>, s: Seq<char>) -> bool {
    exists|i: int| 0 <= i && i + t.len() <= s.len() && #[trigger] s.subrange(i, i + t.len()) == t
}

proof fn lemma_occurs_at_end(p: Seq<char>, t: Seq<char>)
    ensures
        occurs_in(t, p + t),
{
    assert((p + t).subrange(p.len() as int, (p.len() + t.len()) as int) =~= t);
}

proof fn lemma_occurs_extends(t: Seq<char>)
    ensures
        forall|s: Seq<char>, q: Seq<char>| occurs_in(t, s) ==> #[trigger] occurs_in(t, s + q),
{
    assert forall|s: Seq<char>, q: Seq<char>| occurs_in(t, s) implies #[trigger] occurs_in(
        t,
        s + q,
    ) by {
        let i = choose|i: int|
            0 <= i && i + t.len() <= s.len() && #[trigger] s.subrange(i, i + t.len()) == t;
        assert((s + q).subrange(i, i + t.len()) =~= s.subrange(i, i + t.len()));
    }
}

/// Each of the seven fields of a measurement appears in its text form as
/// its decimal digits.
pub proof fn lemma_render_shows_every_field(m: Measurement)
    ensures
        occurs_in(decimal(m.num_sensor as nat), render_spec(m)),
        occurs_in(decimal(m.std_pm1 as nat), render_spec(m)),
        occurs_in(decimal(m.std_pm25 as nat), render_spec(m)),
        occurs_in(decimal(m.std_pm10 as nat), render_spec(m)),
        occurs_in(decimal(m.atm_pm1 as nat), render_spec(m)),
        occurs_in(decimal(m.atm_pm25 as nat), render_spec(m)),
        occurs_in(decimal(m.atm_pm10 as nat), render_spec(m)),
{
    let d0 = decimal(m.num_sensor as nat);
    let d1 = decimal(m.std_pm1 as nat);
    let d2 = decimal(m.atm_pm1 as nat);
    let d3 = decimal(m.std_pm25 as nat);
    let d4 = decimal(m.atm_pm25 as nat);
    let d5 = decimal(m.std_pm10 as nat);
    let d6 = decimal(m.atm_pm10 as nat);
    let s0 = "Sensor Number: "@;
    let s1 = s0 + d0 + "\nStd PM 1: "@;
    let s2 = s1 + d1 + "; Atm PM 1: "@;
    let s3 = s2 + d2 + "\nStd PM 2.5: "@;
    let s4 = s3 + d3 + "; Atm PM 2.5: "@;
    let s5 = s4 + d4 + "\nStd PM 10: "@;
    let s6 = s5 + d5 + "; Atm PM 10: "@;
    lemma_occurs_at_end(s0, d0);
    lemma_occurs_at_end(s1, d1);
    lemma_occurs_at_end(s2, d2);
    lemma_occurs_at_end(s3, d3);
    lemma_occurs_at_end(s4, d4);
    lemma_occurs_at_end(s5, d5);
    lemma_occurs_at_end(s6, d6);
    lemma_occurs_extends(d0);
    lemma_occurs_extends(d1);
    lemma_occurs_extends(d2);
    lemma_occurs_extends(d3);
    lemma_occurs_extends(d4);
    lemma_occurs_extends(d5);
}

impl Measurement {
    /// Renders all seven fields in decimal, in a fixed three-line layout.
    pub fn to_string(&self) -> (r: String)
        ensures
            r@ == render_spec(*self),
    {
        let mut s = String::from_str("Sensor Number: ");
        append_decimal(&mut s, self.num_sensor);
        s.append("\nStd PM 1: ");
        append_decimal(&mut s, self.std_pm1);
        s.append("; Atm PM 1: ");
        append_decimal(&mut s, self.atm_pm1);
        s.append("\nStd PM 2.5: ");
        append_decimal(&mut s, self.std_pm25);
        s.append("; Atm PM 2.5: ");
        append_decimal(&mut s, self.atm_pm25);
        s.append("\nStd PM 10: ");
        append_decimal(&mut s, self.std_pm10);
        s.append("; Atm PM 10: ");
        append_decimal(&mut s, self.atm_pm10);
        s
    }
}

} // verus!
