use vstd::prelude::*;
use vstd::utf8::*;

verus! {

/// The ASCII digit character for a value below ten.
pub open spec fn digit_char(d: nat) -> char {
    ((d + 48) as u8) as char
}

/// Decimal text of a natural number, without leading zeros (zero is "0").
pub open spec fn dec_text(n: nat) -> Seq<char>
    decreases n,
{
    if n < 10 {
        seq![digit_char(n)]
    } else {
        dec_text(n / 10).push(digit_char(n % 10))
    }
}

/// The number that a string of ASCII digits spells in base ten.
pub open spec fn decimal_value(s: Seq<char>) -> int
    decreases s.len(),
{
    if s.len() == 0 {
        0
    } else {
        decimal_value(s.drop_last()) * 10 + (s.last() as int - '0' as int)
    }
}

/// Decimal text is made of ASCII digits, starts with a digit other than 0 unless it is "0",
/// and spells the number it was made from.
pub proof fn lemma_dec_text_spells_the_number(n: nat)
    ensures
        dec_text(n).len() >= 1,
        forall|i: int| 0 <= i < dec_text(n).len() ==> '0' <= #[trigger] dec_text(n)[i] <= '9',
        n > 0 ==> dec_text(n)[0] != '0',
        decimal_value(dec_text(n)) == n,
    decreases n,
{
    let d = n % 10;
    assert(digit_char(d) as int == d + 48) by {
        assert((d + 48) as u8 as int == d + 48);
    }
    assert('0' as int == 48);
    if n < 10 {
        assert(dec_text(n).drop_last() =~= Seq::<char>::empty());
        assert(dec_text(n).last() == digit_char(n));
        assert(decimal_value(dec_text(n)) == decimal_value(Seq::<char>::empty()) * 10 + d);
    } else {
        lemma_dec_text_spells_the_number(n / 10);
        let t = dec_text(n / 10);
        assert(dec_text(n) == t.push(digit_char(n % 10)));
        assert(dec_text(n).drop_last() =~= t);
        assert forall|i: int| 0 <= i < dec_text(n).len() implies '0' <= #[trigger] dec_text(n)[i] <= '9' by {
            if i < t.len() {
                assert(dec_text(n)[i] == t[i]);
            }
        }
        assert(dec_text(n)[0] == t[0]);
        assert(decimal_value(dec_text(n)) == decimal_value(t) * 10 + d);
        assert(n == (n / 10) * 10 + d);
    }
}

/// Dotted-decimal text of an IPv4 address given by its four octets.
pub open spec fn ipv4_text(a: u8, b: u8, c: u8, d: u8) -> Seq<char> {
    dec_text(a as nat) + seq!['.'] + dec_text(b as nat) + seq!['.'] + dec_text(c as nat) + seq!['.']
        + dec_text(d as nat)
}

/// `host:port` text of an endpoint.
pub open spec fn host_port_text(host: Seq<char>, port: u16) -> Seq<char> {
    host + seq![':'] + dec_text(port as nat)
}

/// `needle` occurs in `hay` as a contiguous run of characters.
pub open spec fn contains_text(hay: Seq<char>, needle: Seq<char>) -> bool {
    exists|i: int| 0 <= i && i + needle.len() <= hay.len() && #[trigger] hay.subrange(i, i + needle.len()) == needle
}

/// Text that `String::from_utf8_lossy` makes of a byte sequence.
pub uninterp spec fn utf8_lossy_text(bytes: Seq<u8>) -> Seq<char>;

/// Appends one character to a string.
///
/// Calls `String::push`, which the standard library documents as appending the character
/// to the end of the string.
#[verifier::external_body]
pub(crate) fn push_char(s: &mut String, c: char)
    ensures
        final(s)@ == old(s)@.push(c),
{
    s.push(c);
}

/// The characters of a string, in order.
pub(crate) fn chars_of(s: &str) -> (v: Vec<char>)
    ensures
        v@ == s@,
{
    broadcast use vstd::string::axiom_spec_iter;
    let mut v: Vec<char> = Vec::new();
    for c in it: s.chars()
        invariant
            it.seq() == s@,
            v@ == it.seq().take(it.index() as int),
    {
        v.push(c);
    }
    v
}

/// Decodes a byte vector as UTF-8.
///
/// Calls `String::from_utf8`, which the standard library documents as succeeding exactly on
/// well-formed UTF-8 and then holding the decoded characters; the contract says so with
/// vstd's `valid_utf8` and `decode_utf8`.
#[verifier::external_body]
pub(crate) fn string_from_utf8(bytes: Vec<u8>) -> (r: Option<String>)
    ensures
        r is Some <==> valid_utf8(bytes@),
        r matches Some(s) ==> s@ == decode_utf8(bytes@),
{
    String::from_utf8(bytes).ok()
}

/// Decodes bytes as UTF-8, putting U+FFFD in place of malformed sequences.
///
/// Calls `String::from_utf8_lossy`. Its result is named `utf8_lossy_text`; the standard
/// library documents that well-formed UTF-8 is decoded unchanged, and the contract states
/// that fact. What it writes for malformed input is left unsaid.
#[verifier::external_body]
pub(crate) fn utf8_lossy_string(bytes: &[u8]) -> (s: String)
    ensures
        s@ == utf8_lossy_text(bytes@),
        valid_utf8(bytes@) ==> s@ == decode_utf8(bytes@),
{
    String::from_utf8_lossy(bytes).to_string()
}

/// Appends the decimal text of `n` to `s`.
pub fn push_decimal(s: &mut String, n: u32)
    ensures
        final(s)@ == old(s)@ + dec_text(n as nat),
    decreases n,
{
    if n >= 10 {
        push_decimal(s, n / 10);
    }
    let d: u8 = (n % 10) as u8;
    push_char(s, (d + 48) as char);
    proof {
        assert(dec_text(n as nat) == if n < 10 {
            seq![digit_char(n as nat)]
        } else {
            dec_text((n / 10) as nat).push(digit_char((n % 10) as nat))
        });
    }
}

/// Dotted-decimal text of an IPv4 address, as `std::net::Ipv4Addr` displays it.
pub fn ipv4_string(a: u8, b: u8, c: u8, d: u8) -> (s: String)
    ensures
        s@ == ipv4_text(a, b, c, d),
{
    let mut s = String::new();
    push_decimal(&mut s, a as u32);
    push_char(&mut s, '.');
    push_decimal(&mut s, b as u32);
    push_char(&mut s, '.');
    push_decimal(&mut s, c as u32);
    push_char(&mut s, '.');
    push_decimal(&mut s, d as u32);
    proof {
        assert(s@ =~= ipv4_text(a, b, c, d));
    }
    s
}

/// `host:port`, the address text that outbound connections dial.
pub fn host_port_string(host: &str, port: u16) -> (s: String)
    ensures
        s@ == host_port_text(host@, port),
{
    let mut s = host.to_owned();
    push_char(&mut s, ':');
    push_decimal(&mut s, port as u32);
    proof {
        assert(s@ =~= host_port_text(host@, port));
    }
    s
}

/// Whether `needle` occurs in `hay` (`str::contains` with a string pattern).
pub fn contains_str(hay: &str, needle: &str) -> (r: bool)
    ensures
        r == contains_text(hay@, needle@),
{
    let h = chars_of(hay);
    let n = chars_of(needle);
    if n.len() > h.len() {
        return false;
    }
    let last = h.len() - n.len();
    let mut i: usize = 0;
    while i <= last
        invariant
            h@ == hay@,
            n@ == needle@,
            n.len() <= h.len(),
            last == h.len() - n.len(),
            i <= last + 1,
            forall|k: int| 0 <= k < i ==> #[trigger] h@.subrange(k, k + n@.len()) != n@,
        decreases last + 1 - i,
    {
        let mut j: usize = 0;
        let mut same = true;
        while j < n.len()
            invariant
                h@ == hay@,
                n@ == needle@,
                i <= last,
                last == h.len() - n.len(),
                j <= n.len(),
                same <==> forall|t: int| 0 <= t < j ==> h@[i + t] == n@[t],
            decreases n.len() - j,
        {
            if h[i + j] != n[j] {
                same = false;
            }
            j = j + 1;
        }
        if same {
            assert(h@.subrange(i as int, i + n@.len()) =~= n@);
            return true;
        }
        assert(h@.subrange(i as int, i + n@.len()) != n@) by {
            let t = choose|t: int| 0 <= t < n.len() && h@[i + t] != n@[t];
            assert(h@.subrange(i as int, i + n@.len())[t] != n@[t]);
        }
        i = i + 1;
    }
    false
}

} // verus!
