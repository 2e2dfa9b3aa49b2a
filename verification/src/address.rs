//! Connection targets: a host name and a port, joined as `host:port`.

use vstd::prelude::*;

verus! {

/// The character that stands for a decimal digit.
pub open spec fn digit_char(d: nat) -> char
    recommends
        d < 10,
{
    ((0x30 + d) as u8) as char
}

/// The decimal numeral of `n`, without sign or leading zeros.
pub open spec fn decimal_text(n: nat) -> Seq<char>
    decreases n,
{
    if n < 10 {
        seq![digit_char(n)]
    } else {
        decimal_text(n / 10).push(digit_char(n % 10))
    }
}

/// The text of a connection target: the host, a colon, the port in decimal.
pub open spec fn url_text(host: Seq<char>, port: nat) -> Seq<char> {
    host + seq![':'] + decimal_text(port)
}

/// `String::push`: the character is appended, the rest is kept.
#[verifier::external_body]
fn push_char(text: &mut String, c: char)
    ensures
        final(text)@ == old(text)@.push(c),
{
    text.push(c)
}

/// Appends the decimal numeral of `n`.
fn push_decimal(text: &mut String, n: u32)
    ensures
        final(text)@ == old(text)@ + decimal_text(n as nat),
    decreases n,
{
    if n >= 10 {
        push_decimal(text, n / 10);
    }
    let d: u8 = (n % 10) as u8;
    push_char(text, (0x30 + d) as char);
}

/// Joins a host and a port into the target that a connection is opened to.
pub fn get_url(host: &String, port: u32) -> (url: String)
    ensures
        url@ == url_text(host@, port as nat),
{
    let mut url: String = host.clone();
    push_char(&mut url, ':');
    push_decimal(&mut url, port);
    url
}

} // verus!
