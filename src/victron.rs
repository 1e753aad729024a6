pub mod client;
pub mod ess;
pub mod system;
pub mod ve_battery;
pub mod ve_bus;

use vstd::prelude::*;

verus! {

/// A device reply that the register tables do not know, or a transport failure.
#[derive(Debug)]
pub struct VictronError(pub String);

/// Side of the inverter.
#[derive(Debug, Copy, Clone, PartialEq, Eq, Structural)]
pub enum Side {
    Input,
    Output,
}

/// AC phase.
#[derive(Debug, Copy, Clone, PartialEq, Eq, Structural)]
pub enum Line {
    L1,
    L2,
    L3,
}

impl Line {
    pub open spec fn number_spec(self) -> int {
        match self {
            Line::L1 => 1,
            Line::L2 => 2,
            Line::L3 => 3,
        }
    }

    /// Phase number, 1 to 3.
    pub fn number(&self) -> (r: u16)
        ensures
            r == self.number_spec(),
    {
        match self {
            Line::L1 => 1,
            Line::L2 => 2,
            Line::L3 => 3,
        }
    }
}

/// Readings of one phase.
#[derive(Debug, Copy, Clone, PartialEq, Eq, Structural)]
pub struct LineDetail {
    /// Voltage, in tenths of a volt
    pub voltage: u16,
    /// Current, in tenths of an ampere
    pub current: u16,
    /// Frequency, in hundredths of a hertz
    pub frequency: u16,
    /// Power, in watts
    pub power: u32,
}

impl LineDetail {
    /// The readings from the raw voltage, current, frequency and power
    /// registers; the power register counts tens of watts.
    pub fn from_registers(v: u16, i: u16, f: u16, p: u16) -> (r: LineDetail)
        ensures
            r.voltage == v,
            r.current == i,
            r.frequency == f,
            r.power == p * 10,
    {
        LineDetail { voltage: v, current: i, frequency: f, power: p as u32 * 10 }
    }
}

/// The decimal digits of `n`.
pub open spec fn decimal_text(n: nat) -> Seq<char>
    decreases n,
{
    if n < 10 {
        seq![(n + '0' as nat) as char]
    } else {
        decimal_text(n / 10).push(((n % 10) + '0' as nat) as char)
    }
}

/// The decimal digit `d`, as text.
fn digit_text(d: u16) -> (r: &'static str)
    requires
        d < 10,
    ensures
        r@ == seq![(d + '0' as nat) as char],
{
    proof {
        reveal_strlit("0");
        reveal_strlit("1");
        reveal_strlit("2");
        reveal_strlit("3");
        reveal_strlit("4");
        reveal_strlit("5");
        reveal_strlit("6");
        reveal_strlit("7");
        reveal_strlit("8");
        reveal_strlit("9");
    }
    match d {
        0 => "0",
        1 => "1",
        2 => "2",
        3 => "3",
        4 => "4",
        5 => "5",
        6 => "6",
        7 => "7",
        8 => "8",
        _ => "9",
    }
}

/// Appends the decimal digits of `n` to `s`.
pub fn push_decimal(s: &mut String, n: u16)
    ensures
        final(s)@ == old(s)@ + decimal_text(n as nat),
    decreases n,
{
    if n >= 10 {
        push_decimal(s, n / 10);
    }
    let ghost mid = s@;
    s.append(digit_text(n % 10));
    proof {
        if n >= 10 {
            assert(old(s)@ + decimal_text(n as nat) =~= old(s)@ + decimal_text((n / 10) as nat)
                + seq![((n % 10) + '0' as nat) as char]);
        }
    }
}

/// `prefix`, the decimal digits of `code`, then `!`.
pub(crate) fn code_message(prefix: &str, code: u16) -> (r: String)
    ensures
        r@ == prefix@ + decimal_text(code as nat) + "!"@,
{
    let mut r = prefix.to_owned();
    push_decimal(&mut r, code);
    r.append("!");
    r
}

} // verus!
