//! IP protocol numbers a raw socket can be bound to.

use vstd::prelude::*;
use vstd::string::StringExecFns;

verus! {

/// An IP protocol, either one of the well-known ones or any other number.
#[derive(Clone, Copy, PartialEq, Eq, Structural)]
pub enum Proto {
    HopByHopOpts,
    Icmp,
    Igmp,
    Udp,
    UdpLite,
    Tcp,
    Unknown(u8),
}

/// The character that writes the decimal digit `d`.
pub open spec fn digit_char(d: nat) -> char {
    if d == 0 {
        '0'
    } else if d == 1 {
        '1'
    } else if d == 2 {
        '2'
    } else if d == 3 {
        '3'
    } else if d == 4 {
        '4'
    } else if d == 5 {
        '5'
    } else if d == 6 {
        '6'
    } else if d == 7 {
        '7'
    } else if d == 8 {
        '8'
    } else {
        '9'
    }
}

/// The decimal notation of `n`, without leading zeros.
pub open spec fn decimal(n: nat) -> Seq<char>
    decreases n,
{
    if n < 10 {
        seq![digit_char(n)]
    } else {
        decimal(n / 10).push(digit_char(n % 10))
    }
}

/// The decimal notation of a byte.
pub open spec fn decimal_of(value: u8) -> Seq<char> {
    decimal(value as nat)
}

fn digit_text(d: u8) -> (text: &'static str)
    requires
        d < 10,
    ensures
        text@ == seq![digit_char(d as nat)],
{
    proof {
        reveal_strlit("0");
        reveal_strlit("1");
        reveal_strlit("2");
        reveal_strlit("3");
        reveal_strlit("4");
        reveal_strlit("5");
        reveal_strlit("6");
        reveal_strlit("7");
        reveal_strlit("8");
        reveal_strlit("9");
    }
    let text = if d == 0 {
        "0"
    } else if d == 1 {
        "1"
    } else if d == 2 {
        "2"
    } else if d == 3 {
        "3"
    } else if d == 4 {
        "4"
    } else if d == 5 {
        "5"
    } else if d == 6 {
        "6"
    } else if d == 7 {
        "7"
    } else if d == 8 {
        "8"
    } else {
        "9"
    };
    assert(text@ =~= seq![digit_char(d as nat)]);
    text
}

/// Writes `value` in decimal.
pub fn decimal_text(value: u8) -> (text: String)
    ensures
        text@ == decimal_of(value),
{
    let mut text = String::new();
    if value >= 100 {
        text.append(digit_text(value / 100));
    }
    if value >= 10 {
        text.append(digit_text((value / 10) % 10));
    }
    text.append(digit_text(value % 10));
    proof {
        let n = value as nat;
        reveal_with_fuel(decimal, 4);
        assert(text@ =~= decimal(n));
    }
    text
}

impl Proto {
    /// The protocol number as it stands in an IP header.
    pub open spec fn number(self) -> u8 {
        match self {
            Proto::HopByHopOpts => 0,
            Proto::Icmp => 1,
            Proto::Igmp => 2,
            Proto::Udp => 17,
            Proto::UdpLite => 136,
            Proto::Tcp => 6,
            Proto::Unknown(value) => value,
        }
    }

    /// The text that names the protocol to a human reader.
    pub open spec fn label(self) -> Seq<char> {
        match self {
            Proto::HopByHopOpts => "Hop-by-Hop Options"@,
            Proto::Icmp => "ICMP"@,
            Proto::Igmp => "IGMP"@,
            Proto::Udp => "UDP"@,
            Proto::UdpLite => "UDPLite"@,
            Proto::Tcp => "TCP"@,
            Proto::Unknown(value) => "Unknown ("@ + decimal_of(value) + ")"@,
        }
    }

    /// The protocol number handed to the engine when a raw socket is made.
    pub fn value(&self) -> (number: u8)
        ensures
            number == self.number(),
    {
        match *self {
            Proto::HopByHopOpts => 0,
            Proto::Icmp => 1,
            Proto::Igmp => 2,
            Proto::Udp => 17,
            Proto::UdpLite => 136,
            Proto::Tcp => 6,
            Proto::Unknown(value) => value,
        }
    }

    /// The protocol's name, as it is shown in diagnostics.
    pub fn name(&self) -> (text: String)
        ensures
            text@ == self.label(),
    {
        match *self {
            Proto::HopByHopOpts => String::from_str("Hop-by-Hop Options"),
            Proto::Icmp => String::from_str("ICMP"),
            Proto::Igmp => String::from_str("IGMP"),
            Proto::Udp => String::from_str("UDP"),
            Proto::UdpLite => String::from_str("UDPLite"),
            Proto::Tcp => String::from_str("TCP"),
            Proto::Unknown(value) => {
                let digits = decimal_text(value);
                let mut text = String::from_str("Unknown (");
                text.append(digits.as_str());
                text.append(")");
                text
            },
        }
    }
}

} // verus!
