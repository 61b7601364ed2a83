//! Text of a stream's endpoint address.
use vstd::prelude::*;

verus! {

/// The normalized serialization of `s` where it is a valid URL.
pub uninterp spec fn url_parsed(s: Seq<char>) -> Option<Seq<char>>;

pub open spec fn digit_char(d: nat) -> char {
    if d == 0 {
        '0'
    } else if d == 1 {
        '1'
    } else if d == 2 {
        '2'
    } else if d == 3 {
        '3'
    } else if d == 4 {
        '4'
    } else if d == 5 {
        '5'
    } else if d == 6 {
        '6'
    } else if d == 7 {
        '7'
    } else if d == 8 {
        '8'
    } else {
        '9'
    }
}

/// Decimal digits of `n`, without leading zeros.
pub open spec fn decimal(n: nat) -> Seq<char>
    decreases n,
{
    if n < 10 {
        seq![digit_char(n)]
    } else {
        decimal(n / 10) + seq![digit_char(n % 10)]
    }
}

/// The secure WebSocket address of `path` on `host:port`.
pub open spec fn wss_text(host: Seq<char>, port: nat, path: Seq<char>) -> Seq<char> {
    "wss://"@ + host + ":"@ + decimal(port) + path
}

fn digit_str(d: u64) -> (r: &'static str)
    requires
        d < 10,
    ensures
        r@ == seq![digit_char(d as nat)],
{
    proof {
        reveal_strlit("0");
        reveal_strlit("1");
        reveal_strlit("2");
        reveal_strlit("3");
        reveal_strlit("4");
        reveal_strlit("5");
        reveal_strlit("6");
        reveal_strlit("7");
        reveal_strlit("8");
        reveal_strlit("9");
    }
    if d == 0 {
        "0"
    } else if d == 1 {
        "1"
    } else if d == 2 {
        "2"
    } else if d == 3 {
        "3"
    } else if d == 4 {
        "4"
    } else if d == 5 {
        "5"
    } else if d == 6 {
        "6"
    } else if d == 7 {
        "7"
    } else if d == 8 {
        "8"
    } else {
        "9"
    }
}

/// `n` written in decimal.
pub fn decimal_string(n: u64) -> (r: String)
    ensures
        r@ == decimal(n as nat),
    decreases n,
{
    if n < 10 {
        String::from_str(digit_str(n))
    } else {
        let mut s = decimal_string(n / 10);
        s.append(digit_str(n % 10));
        s
    }
}

/// Relies on url::Url::parse, which accepts or refuses the text, and on
/// Url::as_str, its normalized serialization.
#[verifier::external_body]
fn parse_url(s: &str) -> (r: Option<String>)
    ensures
        r is Some <==> url_parsed(s@) is Some,
        r is Some ==> r->Some_0@ == url_parsed(s@)->Some_0,
{
    match url::Url::parse(s) {
        Ok(u) => Some(String::from(u.as_str())),
        Err(_) => None,
    }
}

/// The address `wss://host:port` followed by `path`, in its normalized form,
/// or `None` where that is no valid URL.
pub fn wss_url(host: &str, port: u16, path: &str) -> (r: Option<String>)
    ensures
        r is Some <==> url_parsed(wss_text(host@, port as nat, path@)) is Some,
        r is Some ==> r->Some_0@ == url_parsed(wss_text(host@, port as nat, path@))->Some_0,
{
    let mut text = String::from_str("wss://");
    text.append(host);
    text.append(":");
    let digits = decimal_string(port as u64);
    text.append(digits.as_str());
    text.append(path);
    parse_url(text.as_str())
}

} // verus!
