//! The wire payloads: the probe text a client sends and the echo a server
//! answers with. Payloads are plain text.

use vstd::prelude::*;

verus! {

/// The decimal digit character for `d`, for `d` below ten.
pub open spec fn digit_char(d: nat) -> char {
    if d == 0 {
        '0'
    } else if d == 1 {
        '1'
    } else if d == 2 {
        '2'
    } else if d == 3 {
        '3'
    } else if d == 4 {
        '4'
    } else if d == 5 {
        '5'
    } else if d == 6 {
        '6'
    } else if d == 7 {
        '7'
    } else if d == 8 {
        '8'
    } else {
        '9'
    }
}

/// The decimal rendering of `n`, most significant digit first, without
/// leading zeros.
pub open spec fn decimal_digits(n: nat) -> Seq<char>
    decreases n,
{
    if n < 10 {
        seq![digit_char(n)]
    } else {
        decimal_digits(n / 10).push(digit_char(n % 10))
    }
}

/// What every probe payload starts with.
pub open spec fn probe_prefix() -> Seq<char> {
    "Message ID: "@
}

/// What every echo payload starts with.
pub open spec fn echo_prefix() -> Seq<char> {
    "Response to "@
}

/// The text of the probe with identifier `id`.
pub open spec fn probe_text(id: nat) -> Seq<char> {
    probe_prefix() + decimal_digits(id)
}

/// The text a server answers with on receiving `inbound`.
pub open spec fn echo_text(inbound: Seq<char>) -> Seq<char> {
    echo_prefix() + inbound
}

/// The one-character string for a decimal digit.
fn digit_str(d: u64) -> (s: &'static str)
    requires
        d < 10,
    ensures
        s@ == seq![digit_char(d as nat)],
{
    proof {
        reveal_strlit("0");
        reveal_strlit("1");
        reveal_strlit("2");
        reveal_strlit("3");
        reveal_strlit("4");
        reveal_strlit("5");
        reveal_strlit("6");
        reveal_strlit("7");
        reveal_strlit("8");
        reveal_strlit("9");
    }
    let s: &'static str = if d == 0 {
        "0"
    } else if d == 1 {
        "1"
    } else if d == 2 {
        "2"
    } else if d == 3 {
        "3"
    } else if d == 4 {
        "4"
    } else if d == 5 {
        "5"
    } else if d == 6 {
        "6"
    } else if d == 7 {
        "7"
    } else if d == 8 {
        "8"
    } else {
        "9"
    };
    assert(s@ =~= seq![digit_char(d as nat)]);
    s
}

/// Appends the decimal rendering of `n` to `out`.
pub(crate) fn append_decimal(out: &mut String, n: u64)
    ensures
        final(out)@ == old(out)@ + decimal_digits(n as nat),
    decreases n,
{
    if n >= 10 {
        append_decimal(out, n / 10);
    }
    out.append(digit_str(n % 10));
    assert(out@ =~= old(out)@ + decimal_digits(n as nat));
}

/// Builds the probe payload with identifier `id`: `Message ID: ` followed by
/// `id` in decimal.
pub fn probe_payload(id: u64) -> (payload: String)
    ensures
        payload@ == probe_text(id as nat),
{
    let mut payload = String::from_str("Message ID: ");
    append_decimal(&mut payload, id);
    payload
}

/// Builds the echo a server answers with: `Response to ` followed by the
/// inbound text, unchanged.
pub fn echo_payload(inbound: &str) -> (payload: String)
    ensures
        payload@ == echo_text(inbound@),
{
    let mut payload = String::from_str("Response to ");
    payload.append(inbound);
    payload
}

/// The echo of a probe is the echo prefix, the probe prefix and the probe's
/// identifier in decimal, in this order.
pub proof fn lemma_echo_of_probe(id: nat)
    ensures
        echo_text(probe_text(id)) == "Response to Message ID: "@ + decimal_digits(id),
{
    reveal_strlit("Response to ");
    reveal_strlit("Message ID: ");
    reveal_strlit("Response to Message ID: ");
    assert(echo_text(probe_text(id)) =~= "Response to Message ID: "@ + decimal_digits(id));
}

/// The number that a decimal digit character stands for.
pub open spec fn digit_value(c: char) -> nat {
    if c == '0' {
        0
    } else if c == '1' {
        1
    } else if c == '2' {
        2
    } else if c == '3' {
        3
    } else if c == '4' {
        4
    } else if c == '5' {
        5
    } else if c == '6' {
        6
    } else if c == '7' {
        7
    } else if c == '8' {
        8
    } else {
        9
    }
}

/// The number that a series of decimal digits stands for, most significant
/// digit first.
pub open spec fn decimal_value(digits: Seq<char>) -> nat
    decreases digits.len(),
{
    if digits.len() == 0 {
        0
    } else {
        decimal_value(digits.drop_last()) * 10 + digit_value(digits.last())
    }
}

/// The decimal rendering of a number stands for that number.
pub proof fn lemma_decimal_reads_back(n: nat)
    ensures
        decimal_value(decimal_digits(n)) == n,
    decreases n,
{
    if n < 10 {
        assert(decimal_digits(n).drop_last() =~= Seq::<char>::empty());
        assert(decimal_value(decimal_digits(n).drop_last()) == 0);
    } else {
        lemma_decimal_reads_back(n / 10);
        assert(decimal_digits(n).drop_last() =~= decimal_digits(n / 10));
    }
}

/// A probe carries its identifier: probes with different identifiers have
/// different texts.
pub proof fn lemma_probes_differ(a: nat, b: nat)
    requires
        a != b,
    ensures
        probe_text(a) != probe_text(b),
{
    if probe_text(a) == probe_text(b) {
        let prefix = probe_prefix();
        assert(probe_text(a).subrange(prefix.len() as int, probe_text(a).len() as int) =~= decimal_digits(a));
        assert(probe_text(b).subrange(prefix.len() as int, probe_text(b).len() as int) =~= decimal_digits(b));
        lemma_decimal_reads_back(a);
        lemma_decimal_reads_back(b);
    }
}

} // verus!
