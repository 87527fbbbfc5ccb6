//! Rules that settings are checked against.
use vstd::prelude::*;

verus! {

/// A port a listener may take: 80, 443, or one above the privileged range.
pub open spec fn port_allowed(port: u16) -> bool {
    port == 80 || port == 443 || port > 1023
}

/// The character of one decimal digit.
pub open spec fn digit_char(d: nat) -> char {
    if d == 0 { '0' }
    else if d == 1 { '1' }
    else if d == 2 { '2' }
    else if d == 3 { '3' }
    else if d == 4 { '4' }
    else if d == 5 { '5' }
    else if d == 6 { '6' }
    else if d == 7 { '7' }
    else if d == 8 { '8' }
    else { '9' }
}

/// `n` written in decimal, without leading zeros.
pub open spec fn decimal(n: nat) -> Seq<char>
    decreases n,
{
    if n < 10 {
        seq![digit_char(n)]
    } else {
        decimal(n / 10).push(digit_char(n % 10))
    }
}

/// The message for a refused port.
pub open spec fn port_message(port: u16) -> Seq<char> {
    "Invalid port value of "@ + decimal(port as nat)
        + ". Value has to be 80, 443 or greater than 1023"@
}

fn digit_text(d: u32) -> (r: &'static str)
    requires
        d < 10,
    ensures
        r@ == seq![digit_char(d as nat)],
{
    proof {
        reveal_strlit("0");
        reveal_strlit("1");
        reveal_strlit("2");
        reveal_strlit("3");
        reveal_strlit("4");
        reveal_strlit("5");
        reveal_strlit("6");
        reveal_strlit("7");
        reveal_strlit("8");
        reveal_strlit("9");
    }
    if d == 0 { "0" }
    else if d == 1 { "1" }
    else if d == 2 { "2" }
    else if d == 3 { "3" }
    else if d == 4 { "4" }
    else if d == 5 { "5" }
    else if d == 6 { "6" }
    else if d == 7 { "7" }
    else if d == 8 { "8" }
    else { "9" }
}

/// `n` in decimal.
pub fn decimal_string(n: u32) -> (r: String)
    ensures
        r@ == decimal(n as nat),
    decreases n,
{
    if n < 10 {
        String::from_str(digit_text(n))
    } else {
        let mut s = decimal_string(n / 10);
        s.append(digit_text(n % 10));
        s
    }
}

/// Checks a port setting; the error is the message to report.
pub fn is_valid_port(value: &u16) -> (r: Result<(), String>)
    ensures
        port_allowed(*value) ==> r is Ok,
        !port_allowed(*value) ==> (r matches Err(m) && m@ == port_message(*value)),
{
    if *value == 80 || *value == 443 || *value > 1023 {
        Ok(())
    } else {
        Err(
            String::from_str("Invalid port value of ").concat(
                decimal_string(*value as u32).as_str(),
            ).concat(". Value has to be 80, 443 or greater than 1023"),
        )
    }
}

} // verus!
