use vstd::prelude::*;
use rustls::pki_types::ServerName;

verus! {

/// The byte `:` that parts host from port.
pub const COLON: u8 = 58;

/// The byte `0`.
pub const DIGIT_ZERO: u8 = 48;

/// The byte `9`.
pub const DIGIT_NINE: u8 = 57;

/// Whether `b` is an ASCII decimal digit.
pub open spec fn is_digit(b: u8) -> bool {
    DIGIT_ZERO <= b <= DIGIT_NINE
}

/// The value of a sequence of decimal digits, most significant first.
pub open spec fn digits_value(s: Seq<u8>) -> nat
    decreases s.len(),
{
    if s.len() == 0 {
        0
    } else {
        digits_value(s.drop_last()) * 10 + (s.last() - DIGIT_ZERO) as nat
    }
}

/// The index of the first `:` in `s`, if there is one.
pub open spec fn first_colon(s: Seq<u8>) -> Option<int> {
    if exists|i: int| 0 <= i < s.len() && s[i] == COLON {
        Some(choose|i: int| 0 <= i < s.len() && s[i] == COLON && forall|j: int| 0 <= j < i ==> s[j] != COLON)
    } else {
        None
    }
}

/// The host and port of an address `host:port`: the host is what stands before
/// the first `:` and is not empty; the port is the non-empty run of decimal
/// digits after it, at most 65535.
pub open spec fn split_host_port(s: Seq<u8>) -> Option<(Seq<u8>, u16)> {
    match first_colon(s) {
        None => None,
        Some(i) => {
            let host = s.subrange(0, i);
            let port = s.subrange(i + 1, s.len() as int);
            if host.len() > 0 && port.len() > 0 && (forall|k: int| 0 <= k < port.len() ==> is_digit(port[k]))
                && digits_value(port) <= 65535 {
                Some((host, digits_value(port) as u16))
            } else {
                None
            }
        },
    }
}

#[verifier::external_type_specification]
#[verifier::external_body]
pub struct ExServerName<'a>(ServerName<'a>);

/// Whether a host can name a TLS server: a DNS name or an IP address.
pub uninterp spec fn is_server_name(host: Seq<u8>) -> bool;

/// Relies on `ServerName::try_from(&[u8])`: it accepts UTF-8 text that is a
/// DNS name or an IP address and refuses anything else, from the bytes alone.
#[verifier::external_body]
pub(crate) fn server_name_of(host: &[u8]) -> (r: Option<ServerName<'static>>)
    ensures
        r is Some == is_server_name(host@),
{
    ServerName::try_from(host).ok().map(|n| n.to_owned())
}

/// Where the upstream is dialled: the host (also the name its certificate must
/// carry) and the TCP port.
#[derive(Debug, Clone)]
pub struct UpstreamTarget {
    pub host: Vec<u8>,
    pub port: u16,
}

proof fn lemma_first_colon(s: Seq<u8>, i: int)
    requires
        0 <= i < s.len(),
        s[i] == COLON,
        forall|j: int| 0 <= j < i ==> s[j] != COLON,
    ensures
        first_colon(s) == Some(i),
{
    let k = choose|k: int| 0 <= k < s.len() && s[k] == COLON && forall|j: int| 0 <= j < k ==> s[j] != COLON;
    assert(0 <= k < s.len() && s[k] == COLON && forall|j: int| 0 <= j < k ==> s[j] != COLON);
    if k < i {
        assert(s[k] != COLON);
    } else if k > i {
        assert(s[i] != COLON);
    }
}

/// Splits an upstream address into host and port; `None` where it is not of
/// the form `host:port`.
pub fn split_upstream(addr: &[u8]) -> (r: Option<UpstreamTarget>)
    ensures
        r is None <==> split_host_port(addr@) is None,
        r matches Some(t) ==> split_host_port(addr@) == Some((t.host@, t.port)),
{
    let n = addr.len();
    let mut i: usize = 0;
    while i < n && addr[i] != COLON
        invariant
            i <= n == addr@.len(),
            forall|j: int| 0 <= j < i ==> addr@[j] != COLON,
        decreases n - i,
    {
        i = i + 1;
    }
    if i == n {
        assert(first_colon(addr@) is None);
        return None;
    }
    proof { lemma_first_colon(addr@, i as int); }
    let ghost port_seq = addr@.subrange(i as int + 1, n as int);
    if i == 0 || i + 1 == n {
        return None;
    }
    let mut value: u32 = 0;
    let mut k: usize = i + 1;
    while k < n
        invariant
            i + 1 <= k <= n == addr@.len(),
            0 < i,
            i + 1 < n,
            first_colon(addr@) == Some(i as int),
            port_seq == addr@.subrange(i as int + 1, n as int),
            forall|m: int| 0 <= m < k - (i + 1) ==> is_digit(port_seq[m]),
            value as nat == digits_value(port_seq.subrange(0, k - (i + 1))),
            value <= 65535,
        decreases n - k,
    {
        let b = addr[k];
        let ghost pre = port_seq.subrange(0, k - (i + 1));
        let ghost next = port_seq.subrange(0, k + 1 - (i + 1));
        assert(next.drop_last() =~= pre);
        assert(port_seq[k - (i + 1)] == b);
        if b < DIGIT_ZERO || b > DIGIT_NINE {
            assert(!is_digit(port_seq[k - (i + 1)]));
            assert(split_host_port(addr@) is None);
            return None;
        }
        let v = value * 10 + (b - DIGIT_ZERO) as u32;
        assert(digits_value(next) == value * 10 + (b - DIGIT_ZERO));
        if v > 65535 {
            proof {
                if forall|m: int| 0 <= m < port_seq.len() ==> is_digit(port_seq[m]) {
                    lemma_digits_prefix_bound(port_seq, k + 1 - (i + 1));
                }
                assert(split_host_port(addr@) is None);
            }
            return None;
        }
        value = v;
        k = k + 1;
    }
    assert(port_seq.subrange(0, n - (i + 1)) =~= port_seq);
    let mut host: Vec<u8> = Vec::new();
    let mut h: usize = 0;
    while h < i
        invariant
            h <= i < n == addr@.len(),
            host@ =~= addr@.subrange(0, h as int),
        decreases i - h,
    {
        host.push(addr[h]);
        h = h + 1;
    }
    Some(UpstreamTarget { host, port: value as u16 })
}

/// A longer run of digits never has a smaller value.
proof fn lemma_digits_prefix_bound(s: Seq<u8>, k: int)
    requires
        0 <= k <= s.len(),
        forall|m: int| 0 <= m < s.len() ==> is_digit(s[m]),
    ensures
        digits_value(s) >= digits_value(s.subrange(0, k)),
    decreases s.len(),
{
    if k < s.len() {
        assert(s.drop_last().subrange(0, k) =~= s.subrange(0, k));
        lemma_digits_prefix_bound(s.drop_last(), k);
    } else {
        assert(s.subrange(0, k) =~= s);
    }
}

} // verus!
