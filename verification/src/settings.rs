//! Connection settings taken from the environment: broker host, port and names,
//! with their defaults.

use vstd::prelude::*;
use vstd::string::*;

use crate::decimal::{ascii_bytes, decimal, digit_char, law_decimal_is_digits, lemma_digit_char};

verus! {

/// The MQTT port used where none is configured.
pub const DEFAULT_PORT: u16 = 1883;

/// An ASCII decimal digit.
pub open spec fn is_digit_byte(b: u8) -> bool {
    48 <= b <= 57
}

/// The value of a run of ASCII decimal digits.
pub open spec fn digits_value(s: Seq<u8>) -> nat
    decreases s.len(),
{
    if s.len() == 0 {
        0
    } else {
        digits_value(s.drop_last()) * 10 + (s.last() - 48) as nat
    }
}

/// The digits of a number's text: the text without one leading `+`.
pub open spec fn unsigned_digits(s: Seq<u8>) -> Seq<u8> {
    if s.len() > 0 && s[0] == 43 {
        s.drop_first()
    } else {
        s
    }
}

/// How a `u16` is read from text: an optional `+`, then one or more decimal
/// digits whose value is at most 65535; anything else is refused.
pub open spec fn parse_u16_spec(s: Seq<u8>) -> Option<u16> {
    let d = unsigned_digits(s);
    if d.len() > 0 && (forall|i: int| 0 <= i < d.len() ==> is_digit_byte(#[trigger] d[i]))
        && digits_value(d) <= u16::MAX {
        Some(digits_value(d) as u16)
    } else {
        None
    }
}

/// Nothing, or a lone sign, is not a number.
pub proof fn law_parse_refuses_empty()
    ensures
        parse_u16_spec(Seq::<u8>::empty()) is None,
        parse_u16_spec(seq![43u8]) is None,
{
    assert(unsigned_digits(seq![43u8]) =~= Seq::<u8>::empty());
}

/// A single digit reads as its value.
pub proof fn law_parse_single_digit(b: u8)
    requires
        is_digit_byte(b),
    ensures
        parse_u16_spec(seq![b]) == Some((b - 48) as u16),
{
    let s = seq![b];
    assert(unsigned_digits(s) =~= s);
    assert(s.drop_last() =~= Seq::<u8>::empty());
    assert(digits_value(s.drop_last()) == 0);
    assert(digits_value(s) == b - 48);
    assert(is_digit_byte(s[0]));
}

/// Appending a digit to readable text multiplies its value by ten and adds the
/// digit; the text stops being readable once that passes 65535. This holds
/// whatever the length of the text.
pub proof fn law_parse_append_digit(s: Seq<u8>, v: u16, b: u8)
    requires
        parse_u16_spec(s) == Some(v),
        is_digit_byte(b),
    ensures
        10 * v + (b - 48) <= 65535 ==> parse_u16_spec(s.push(b)) == Some((10 * v + (b - 48)) as u16),
        10 * v + (b - 48) > 65535 ==> parse_u16_spec(s.push(b)) is None,
{
    let d = unsigned_digits(s);
    let e = unsigned_digits(s.push(b));
    assert(s.len() > 0);
    assert(s.push(b)[0] == s[0]);
    if s[0] == 43 {
        assert(s.push(b).drop_first() =~= s.drop_first().push(b));
    }
    assert(e =~= d.push(b));
    assert(e.drop_last() =~= d);
    assert(e.last() == b);
    assert(digits_value(e) == digits_value(d) * 10 + (b - 48));
    assert forall|i: int| 0 <= i < e.len() implies is_digit_byte(#[trigger] e[i]) by {
        if i < d.len() {
            assert(e[i] == d[i]);
        }
    }
}

/// A byte that is not a digit, after any text, makes the text unreadable.
pub proof fn law_parse_refuses_non_digit(s: Seq<u8>, b: u8)
    requires
        !is_digit_byte(b),
    ensures
        parse_u16_spec(s.push(b)) is None,
{
    let e = unsigned_digits(s.push(b));
    if s.len() == 0 {
        if b == 43 {
            assert(e =~= Seq::<u8>::empty());
        } else {
            assert(e =~= seq![b]);
            assert(!is_digit_byte(e[0]));
        }
    } else {
        assert(s.push(b)[0] == s[0]);
        if s[0] == 43 {
            assert(s.push(b).drop_first() =~= s.drop_first().push(b));
        }
        assert(e.last() == b);
        assert(!is_digit_byte(e[e.len() - 1]));
    }
}

/// Text that is unreadable stays unreadable whatever follows, unless it is
/// empty or a lone `+`.
pub proof fn law_parse_unreadable_stays_unreadable(s: Seq<u8>, b: u8)
    requires
        parse_u16_spec(s) is None,
        s.len() > 0,
        s != seq![43u8],
    ensures
        parse_u16_spec(s.push(b)) is None,
{
    if !is_digit_byte(b) {
        law_parse_refuses_non_digit(s, b);
    } else {
        let d = unsigned_digits(s);
        let e = unsigned_digits(s.push(b));
        assert(s.push(b)[0] == s[0]);
        if s[0] == 43 {
            assert(s.push(b).drop_first() =~= s.drop_first().push(b));
            if s.len() == 1 {
                assert(s =~= seq![43u8]);
            }
        }
        assert(e =~= d.push(b));
        assert(e.drop_last() =~= d);
        assert(d.len() > 0);
        if exists|i: int| 0 <= i < d.len() && !is_digit_byte(#[trigger] d[i]) {
            let i = choose|i: int| 0 <= i < d.len() && !is_digit_byte(#[trigger] d[i]);
            assert(e[i] == d[i]);
            assert(!is_digit_byte(e[i]));
        } else {
            assert(digits_value(d) > 65535);
            assert(digits_value(e) == digits_value(d) * 10 + (b - 48));
        }
    }
}

/// One leading `+` does not change what text reads as.
pub proof fn law_parse_plus_sign(s: Seq<u8>)
    requires
        s.len() == 0 || s[0] != 43,
    ensures
        parse_u16_spec(seq![43u8] + s) == parse_u16_spec(s),
{
    let t = seq![43u8] + s;
    assert(t[0] == 43);
    assert(t.drop_first() =~= s);
    assert(unsigned_digits(s) =~= s);
}

/// The decimal text of a number has that number as its digit value.
pub proof fn law_decimal_value(n: nat)
    ensures
        digits_value(ascii_bytes(decimal(n))) == n,
        forall|i: int|
            0 <= i < decimal(n).len() ==> is_digit_byte(#[trigger] ascii_bytes(decimal(n))[i]),
    decreases n,
{
    law_decimal_is_digits(n);
    let b = ascii_bytes(decimal(n));
    assert forall|i: int| 0 <= i < decimal(n).len() implies is_digit_byte(#[trigger] b[i]) by {
        let c = decimal(n)[i];
        assert('0' <= c <= '9');
        assert(b[i] == c as u8);
    }
    if n < 10 {
        lemma_digit_char(n as int);
        assert(b.drop_last() =~= Seq::<u8>::empty());
        assert(digits_value(b.drop_last()) == 0);
        assert(b.last() == n + 48);
    } else {
        law_decimal_value(n / 10);
        lemma_digit_char((n % 10) as int);
        assert(b.drop_last() =~= ascii_bytes(decimal(n / 10)));
        assert(b.last() == (n % 10) + 48);
        assert(digits_value(b) == (n / 10) * 10 + n % 10);
    }
}

/// Reading back the decimal text of any `u16` gives that number.
pub proof fn law_decimal_reads_back(n: u16)
    ensures
        parse_u16_spec(ascii_bytes(decimal(n as nat))) == Some(n),
    decreases n,
{
    let b = ascii_bytes(decimal(n as nat));
    if n < 10 {
        lemma_digit_char(n as int);
        assert(b =~= seq![(n + 48) as u8]);
        law_parse_single_digit((n + 48) as u8);
    } else {
        let q: u16 = n / 10;
        let r: u16 = n % 10;
        law_decimal_reads_back(q);
        lemma_digit_char(r as int);
        assert(b =~= ascii_bytes(decimal(q as nat)).push((r + 48) as u8));
        law_parse_append_digit(ascii_bytes(decimal(q as nat)), q, (r + 48) as u8);
    }
}

/// The decimal text of any `u16`, as a string, reads back as that number.
pub proof fn law_decimal_text_reads_back(n: u16, text: &str)
    requires
        text@ == decimal(n as nat),
    ensures
        parse_u16_spec(text.spec_bytes()) == Some(n),
{
    broadcast use is_ascii_spec_bytes;

    law_decimal_is_digits(n as nat);
    assert(is_ascii(text));
    assert(text.spec_bytes() =~= ascii_bytes(decimal(n as nat)));
    law_decimal_reads_back(n);
}

/// A port setting that is present and readable is used as is; one that is
/// present and unreadable is refused; a missing one gives [`DEFAULT_PORT`].
pub proof fn law_strict_port_uses_readable_text(t: &str)
    ensures
        parse_u16_spec(t.spec_bytes()) matches Some(p) ==> strict_port_spec(Some(t)) == Some(p),
        parse_u16_spec(t.spec_bytes()) is None ==> strict_port_spec(Some(t)) is None,
        strict_port_spec(None) == Some(1883u16),
{
}

/// Reads a `u16` from its decimal text.
pub fn parse_u16(text: &str) -> (r: Option<u16>)
    ensures
        r == parse_u16_spec(text.spec_bytes()),
{
    let bytes = text.as_bytes();
    let ghost s = bytes@;
    let n: usize = bytes.len();
    let start: usize = if n > 0 && bytes[0] == 43u8 { 1 } else { 0 };
    let ghost d = unsigned_digits(s);
    assert(d =~= s.subrange(start as int, n as int));
    if start == n {
        return None;
    }
    let mut value: u32 = 0;
    let mut overflow = false;
    let mut k: usize = start;
    while k < n
        invariant
            start <= k <= n,
            n == bytes@.len(),
            s == bytes@,
            s == text.spec_bytes(),
            d == unsigned_digits(s),
            d == s.subrange(start as int, n as int),
            forall|i: int| 0 <= i < k - start ==> is_digit_byte(#[trigger] d[i]),
            !overflow ==> value == digits_value(d.take(k - start)) && value <= 65535,
            overflow ==> digits_value(d.take(k - start)) > 65535,
        decreases n - k,
    {
        let b: u8 = bytes[k];
        if b < 48u8 || b > 57u8 {
            assert(!is_digit_byte(d[k - start]));
            assert(!(forall|i: int| 0 <= i < d.len() ==> is_digit_byte(#[trigger] d[i])));
            return None;
        }
        let ghost prefix = d.take(k - start);
        let ghost next = d.take(k - start + 1);
        assert(next.drop_last() =~= prefix);
        assert(next.last() == b);
        if !overflow {
            let v: u32 = value * 10 + (b - 48u8) as u32;
            if v > 65535 {
                overflow = true;
            } else {
                value = v;
            }
        }
        k += 1;
    }
    assert(d.take(n - start) =~= d);
    if overflow {
        None
    } else {
        Some(value as u16)
    }
}

/// The port to use: the configured text read as a port, or [`DEFAULT_PORT`]
/// where the setting is missing or is not a valid port.
pub fn port_or_default(setting: Option<&str>) -> (port: u16)
    ensures
        port == match setting {
            Some(t) => match parse_u16_spec(t.spec_bytes()) {
                Some(p) => p,
                None => DEFAULT_PORT,
            },
            None => DEFAULT_PORT,
        },
{
    match setting {
        Some(t) => match parse_u16(t) {
            Some(p) => p,
            None => DEFAULT_PORT,
        },
        None => DEFAULT_PORT,
    }
}

/// A port setting that must be valid where present: [`DEFAULT_PORT`] where the
/// setting is missing, otherwise what its text reads as.
pub open spec fn strict_port_spec(setting: Option<&str>) -> Option<u16> {
    match setting {
        Some(t) => parse_u16_spec(t.spec_bytes()),
        None => Some(DEFAULT_PORT),
    }
}

/// The port to use where a configured port must be valid: [`DEFAULT_PORT`] where
/// the setting is missing, the port it names where it is valid, and `None` where
/// it is present but not a valid port.
pub fn port_setting(setting: Option<&str>) -> (port: Option<u16>)
    ensures
        port == strict_port_spec(setting),
        setting matches Some(t) ==> port == parse_u16_spec(t.spec_bytes()),
        setting is None ==> port == Some(1883u16),
{
    match setting {
        Some(t) => parse_u16(t),
        None => Some(DEFAULT_PORT),
    }
}

/// A text setting, or its default where it is missing.
pub fn text_or(setting: Option<String>, default: &str) -> (value: String)
    ensures
        value@ == match setting {
            Some(t) => t@,
            None => default@,
        },
{
    match setting {
        Some(t) => t,
        None => String::from_str(default),
    }
}

/// Settings of the room-sensor publisher.
pub struct Config {
    pub host: String,
    pub port: u16,
    pub client_id: String,
}

/// Why the publisher's settings were refused.
#[derive(Debug, PartialEq, Eq, Structural, Clone, Copy)]
pub enum ConfigError {
    /// `MQTT_PORT` is set but is not a valid port.
    InvalidPort,
}

impl Config {
    /// Builds the publisher's settings from the values of `MQTT_HOST`,
    /// `MQTT_PORT` and `MQTT_CLIENT_ID` (`None` where unset): the host defaults to
    /// `localhost`, the port to 1883 and the client id to `room-sensor-mock`; a
    /// port that is set must be valid.
    pub fn from_settings(host: Option<String>, port: Option<&str>, client_id: Option<String>) -> (r:
        Result<Config, ConfigError>)
        ensures
            r is Err <==> strict_port_spec(port) is None,
            r matches Err(e) ==> e == ConfigError::InvalidPort,
            port matches Some(t) ==> (r is Err <==> parse_u16_spec(t.spec_bytes()) is None),
            port matches Some(t) ==> (parse_u16_spec(t.spec_bytes()) matches Some(p) ==> (r matches Ok(
                c,
            ) && c.port == p)),
            port is None ==> (r matches Ok(c) && c.port == 1883),
            r matches Ok(c) ==> {
                &&& Some(c.port) == strict_port_spec(port)
                &&& c.host@ == match host {
                    Some(h) => h@,
                    None => "localhost"@,
                }
                &&& c.client_id@ == match client_id {
                    Some(id) => id@,
                    None => "room-sensor-mock"@,
                }
            },
    {
        let port: u16 = match port_setting(port) {
            Some(p) => p,
            None => return Err(ConfigError::InvalidPort),
        };
        let host = text_or(host, "localhost");
        let client_id = text_or(client_id, "room-sensor-mock");
        Ok(Config { host, port, client_id })
    }
}

} // verus!
