use vstd::prelude::*;
use crate::text::{ipv4_string, ipv4_text, push_char};

verus! {

/// The lower-case hexadecimal digit for a value below sixteen.
pub open spec fn hex_digit_char(d: nat) -> char {
    if d < 10 {
        ((d + 48) as u8) as char
    } else {
        ((d + 87) as u8) as char
    }
}

/// Lower-case hexadecimal text without leading zeros (zero is "0").
pub open spec fn hex_text(n: nat) -> Seq<char>
    decreases n,
{
    if n < 16 {
        seq![hex_digit_char(n)]
    } else {
        hex_text(n / 16).push(hex_digit_char(n % 16))
    }
}

/// The eight 16-bit groups of an IPv6 address given by its sixteen octets, most significant first.
pub open spec fn ipv6_groups(o: Seq<u8>) -> Seq<u16> {
    Seq::new(8, |i: int| (o[2 * i] as int * 256 + o[2 * i + 1] as int) as u16)
}

/// How many zero groups follow one another from index `i` on.
pub open spec fn zeros_from(g: Seq<u16>, i: int) -> nat
    decreases g.len() - i,
{
    if 0 <= i < g.len() && g[i] == 0 {
        1 + zeros_from(g, i + 1)
    } else {
        0
    }
}

/// Among the runs of zero groups that start below `n`, the first of the longest: its start
/// and its length (a length of zero when there is none).
pub open spec fn longest_zero_run(g: Seq<u16>, n: int) -> (int, nat)
    decreases n,
{
    if n <= 0 {
        (0, 0)
    } else {
        let (s, l) = longest_zero_run(g, n - 1);
        if zeros_from(g, n - 1) > l {
            (n - 1, zeros_from(g, n - 1))
        } else {
            (s, l)
        }
    }
}

/// Groups in hexadecimal, separated by ':'.
pub open spec fn join_hex(g: Seq<u16>) -> Seq<char>
    decreases g.len(),
{
    if g.len() == 0 {
        seq![]
    } else if g.len() == 1 {
        hex_text(g[0] as nat)
    } else {
        join_hex(g.drop_last()) + seq![':'] + hex_text(g.last() as nat)
    }
}

/// The address is an IPv4-mapped IPv6 address (`::ffff:a.b.c.d`).
pub open spec fn is_ipv4_mapped(o: Seq<u8>) -> bool {
    &&& forall|i: int| 0 <= i < 10 ==> #[trigger] o[i] == 0
    &&& o[10] == 0xff
    &&& o[11] == 0xff
}

/// Text form of an IPv6 address given by its sixteen octets, as `std::net::Ipv6Addr`
/// displays it: an IPv4-mapped address as `::ffff:` and dotted decimal; otherwise the
/// groups in lower-case hexadecimal, with the first of the longest runs of two or more
/// zero groups written as `::`.
pub open spec fn ipv6_text(o: Seq<u8>) -> Seq<char> {
    if is_ipv4_mapped(o) {
        seq![':', ':', 'f', 'f', 'f', 'f', ':'] + ipv4_text(o[12], o[13], o[14], o[15])
    } else {
        let g = ipv6_groups(o);
        let (s, l) = longest_zero_run(g, 8);
        if l > 1 {
            join_hex(g.subrange(0, s)) + seq![':', ':'] + join_hex(g.subrange(s + l, 8))
        } else {
            join_hex(g)
        }
    }
}

/// Appends the lower-case hexadecimal text of `n` to `s`.
fn push_hex(s: &mut String, n: u16)
    ensures
        final(s)@ == old(s)@ + hex_text(n as nat),
    decreases n,
{
    if n >= 16 {
        push_hex(s, n / 16);
    }
    let d: u8 = (n % 16) as u8;
    let c = if d < 10 {
        (d + 48) as char
    } else {
        (d + 87) as char
    };
    push_char(s, c);
    proof {
        assert(hex_text(n as nat) == if n < 16 {
            seq![hex_digit_char(n as nat)]
        } else {
            hex_text((n / 16) as nat).push(hex_digit_char((n % 16) as nat))
        });
    }
}

proof fn lemma_join_hex_step(g: Seq<u16>, from: int, i: int)
    requires
        0 <= from <= i < g.len(),
    ensures
        join_hex(g.subrange(from, i + 1)) == join_hex(g.subrange(from, i)) + (if i > from {
            seq![':']
        } else {
            seq![]
        }) + hex_text(g[i] as nat),
{
    let t = g.subrange(from, i + 1);
    assert(t.drop_last() =~= g.subrange(from, i));
    assert(t.last() == g[i]);
    if i == from {
        assert(g.subrange(from, i) =~= Seq::<u16>::empty());
        assert(join_hex(t) == hex_text(t[0] as nat));
    }
}

/// Appends the groups `g[from..to]` in hexadecimal, separated by ':'.
fn push_groups(s: &mut String, g: &Vec<u16>, from: usize, to: usize)
    requires
        from <= to <= g.len(),
    ensures
        final(s)@ == old(s)@ + join_hex(g@.subrange(from as int, to as int)),
{
    let ghost start = s@;
    let mut i = from;
    assert(g@.subrange(from as int, from as int) =~= Seq::<u16>::empty());
    assert(s@ =~= start + join_hex(g@.subrange(from as int, from as int)));
    while i < to
        invariant
            from <= i <= to <= g.len(),
            s@ == start + join_hex(g@.subrange(from as int, i as int)),
        decreases to - i,
    {
        proof {
            lemma_join_hex_step(g@, from as int, i as int);
        }
        if i > from {
            push_char(s, ':');
        }
        push_hex(s, g[i]);
        assert(s@ =~= start + join_hex(g@.subrange(from as int, i + 1)));
        i = i + 1;
    }
}

proof fn lemma_zeros_from_run(g: Seq<u16>, i: int, j: int)
    requires
        0 <= i <= j <= g.len(),
        forall|k: int| i <= k < j ==> g[k] == 0,
    ensures
        zeros_from(g, i) == (j - i) + zeros_from(g, j),
    decreases j - i,
{
    if i < j {
        lemma_zeros_from_run(g, i + 1, j);
    }
}

/// Text form of an IPv6 address given by its sixteen octets, as `std::net::Ipv6Addr`
/// displays it.
pub fn ipv6_string(o: &[u8]) -> (s: String)
    requires
        o@.len() == 16,
    ensures
        s@ == ipv6_text(o@),
{
    let mut mapped = o[10] == 0xff && o[11] == 0xff;
    let mut k: usize = 0;
    while k < 10
        invariant
            k <= 10,
            o@.len() == 16,
            mapped <==> (o[10] == 0xff && o[11] == 0xff && forall|t: int| 0 <= t < k ==> #[trigger] o@[t] == 0),
        decreases 10 - k,
    {
        if o[k] != 0 {
            mapped = false;
        }
        k = k + 1;
    }
    if mapped {
        let mut s = String::new();
        push_char(&mut s, ':');
        push_char(&mut s, ':');
        push_char(&mut s, 'f');
        push_char(&mut s, 'f');
        push_char(&mut s, 'f');
        push_char(&mut s, 'f');
        push_char(&mut s, ':');
        let v4 = ipv4_string(o[12], o[13], o[14], o[15]);
        let mut s2 = s;
        s2.append(v4.as_str());
        assert(s2@ =~= ipv6_text(o@));
        return s2;
    }
    let mut g: Vec<u16> = Vec::new();
    let mut i: usize = 0;
    while i < 8
        invariant
            i <= 8,
            o@.len() == 16,
            g@.len() == i,
            forall|t: int| 0 <= t < i ==> #[trigger] g@[t] == ipv6_groups(o@)[t],
        decreases 8 - i,
    {
        let v: u16 = (o[2 * i] as u16) * 256 + (o[2 * i + 1] as u16);
        g.push(v);
        i = i + 1;
    }
    assert(g@ =~= ipv6_groups(o@));
    let mut best_start: usize = 0;
    let mut best_len: usize = 0;
    let mut i: usize = 0;
    while i < 8
        invariant
            i <= 8,
            g@.len() == 8,
            (best_start as int, best_len as nat) == longest_zero_run(g@, i as int),
            best_start + best_len <= 8,
        decreases 8 - i,
    {
        let mut j = i;
        while j < 8 && g[j] == 0
            invariant
                i <= j <= 8,
                g@.len() == 8,
                forall|t: int| i <= t < j ==> g@[t] == 0,
            decreases 8 - j,
        {
            j = j + 1;
        }
        proof {
            lemma_zeros_from_run(g@, i as int, j as int);
            assert(zeros_from(g@, j as int) == 0);
        }
        let c = j - i;
        if c > best_len {
            best_start = i;
            best_len = c;
        }
        i = i + 1;
    }
    let mut s = String::new();
    if best_len > 1 {
        push_groups(&mut s, &g, 0, best_start);
        push_char(&mut s, ':');
        push_char(&mut s, ':');
        push_groups(&mut s, &g, best_start + best_len, 8);
    } else {
        push_groups(&mut s, &g, 0, 8);
        assert(g@.subrange(0, 8) =~= g@);
    }
    assert(s@ =~= ipv6_text(o@));
    s
}

} // verus!
