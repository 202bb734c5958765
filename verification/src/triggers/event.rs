//! Events: immutable named units of data, each with an optional JSON
//! payload, produced by a trigger and consumed once by the agent. An event's
//! JSON projection — what the prompt template is rendered against — is
//! specified exactly.

use vstd::prelude::*;

verus! {

/// The JSON representation of a string value, quotes included, as the JSON
/// serializer writes it: reserved characters are escaped, everything else is
/// copied. The result depends on the string alone.
pub uninterp spec fn json_string_repr(s: Seq<char>) -> Seq<char>;

/// Relies on `serde_json::to_string` for a string value: hands back the JSON
/// representation of the string, quotes included. Serializing a plain string
/// cannot fail.
#[verifier::external_body]
pub(crate) fn json_quote(s: &str) -> (r: String)
    ensures
        r@ == json_string_repr(s@),
{
    serde_json::to_string(s).unwrap_or_else(|_| String::new())
}

/// The digit character for a value below ten.
pub open spec fn spec_digit(d: int) -> char
    recommends
        0 <= d < 10,
{
    if d == 0 {
        '0'
    } else if d == 1 {
        '1'
    } else if d == 2 {
        '2'
    } else if d == 3 {
        '3'
    } else if d == 4 {
        '4'
    } else if d == 5 {
        '5'
    } else if d == 6 {
        '6'
    } else if d == 7 {
        '7'
    } else if d == 8 {
        '8'
    } else {
        '9'
    }
}

/// The decimal rendering of a non-negative value, without leading zeros.
pub open spec fn spec_udecimal(n: nat) -> Seq<char>
    decreases n,
{
    if n < 10 {
        seq![spec_digit(n as int)]
    } else {
        spec_udecimal(n / 10).push(spec_digit((n % 10) as int))
    }
}

/// The decimal rendering of an integer: a minus sign before the magnitude
/// when the value is negative.
pub open spec fn spec_decimal(n: int) -> Seq<char> {
    if n < 0 {
        seq!['-'] + spec_udecimal((-n) as nat)
    } else {
        spec_udecimal(n as nat)
    }
}

/// The one-character string of a digit.
fn digit_str(d: u64) -> (r: &'static str)
    requires
        d < 10,
    ensures
        r@ == seq![spec_digit(d as int)],
{
    proof {
        reveal_strlit("0");
        reveal_strlit("1");
        reveal_strlit("2");
        reveal_strlit("3");
        reveal_strlit("4");
        reveal_strlit("5");
        reveal_strlit("6");
        reveal_strlit("7");
        reveal_strlit("8");
        reveal_strlit("9");
    }
    match d {
        0 => "0",
        1 => "1",
        2 => "2",
        3 => "3",
        4 => "4",
        5 => "5",
        6 => "6",
        7 => "7",
        8 => "8",
        _ => "9",
    }
}

/// Renders a non-negative value in decimal.
fn udecimal_string(n: u64) -> (r: String)
    ensures
        r@ == spec_udecimal(n as nat),
    decreases n,
{
    if n < 10 {
        digit_str(n).to_owned()
    } else {
        let prefix = udecimal_string(n / 10);
        let r = prefix.concat(digit_str(n % 10));
        proof {
            assert(r@ =~= spec_udecimal((n / 10) as nat).push(spec_digit((n % 10) as int)));
        }
        r
    }
}

/// Renders an integer in decimal.
pub fn decimal_string(n: i64) -> (r: String)
    ensures
        r@ == spec_decimal(n as int),
{
    if n >= 0 {
        let r = udecimal_string(n as u64);
        r
    } else {
        let magnitude: u64 = if n == i64::MIN {
            9223372036854775808u64
        } else {
            (-n) as u64
        };
        proof {
            reveal_strlit("-");
        }
        let r = "-".to_owned().concat(udecimal_string(magnitude).as_str());
        proof {
            assert(r@ =~= seq!['-'] + spec_udecimal((-(n as int)) as nat));
        }
        r
    }
}

/// An event that can be processed by the agent.
#[derive(Debug)]
pub struct TEvent {
    /// The name of the event.
    pub name: String,
    /// The payload of the event: a JSON document as text, when the source
    /// supplied one.
    pub payload: Option<String>,
}

/// The JSON projection of an event with the given name and payload: an
/// object with the quoted name under `"name"` and the payload document (or
/// `null`) under `"payload"`.
pub open spec fn spec_event_json(name: Seq<char>, payload: Option<Seq<char>>) -> Seq<char> {
    "{\"name\":"@ + json_string_repr(name) + ",\"payload\":"@ + (match payload {
        Some(p) => p,
        None => "null"@,
    }) + "}"@
}

impl TEvent {
    /// The payload document of this event, as text.
    pub open spec fn spec_payload(&self) -> Option<Seq<char>> {
        match self.payload {
            Some(ref p) => Some(p@),
            None => None,
        }
    }

    /// The JSON projection of this event, rendered as text.
    pub fn to_json(&self) -> (r: String)
        ensures
            r@ == spec_event_json(self.name@, self.spec_payload()),
    {
        let mut out = "{\"name\":".to_owned();
        out.append(json_quote(self.name.as_str()).as_str());
        out.append(",\"payload\":");
        match &self.payload {
            Some(p) => out.append(p.as_str()),
            None => out.append("null"),
        }
        out.append("}");
        out
    }
}

} // verus!
