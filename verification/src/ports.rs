//! Port arithmetic for the ingress mapper: parsing exposed port strings,
//! expanding published port mappings into their concrete container ports,
//! and selecting the single port an ingress can carry.

use vstd::prelude::*;
use crate::compose::{PortMapping, Ports, Protocol, Service};
use crate::errors::ConvertError;
use crate::errors::ConvertErrorView;

verus! {

/// Whether `c` is a decimal digit.
pub open spec fn is_digit(c: char) -> bool {
    '0' <= c && c <= '9'
}

/// The number a string of decimal digits denotes.
pub open spec fn digits_value(s: Seq<char>) -> int
    decreases s.len(),
{
    if s.len() == 0 {
        0
    } else {
        digits_value(s.drop_last()) * 10 + (s.last() as int - '0' as int)
    }
}

/// Whether `s` is a literal port number: one or more decimal digits
/// denoting a value that fits in sixteen bits.
pub open spec fn is_port_string(s: Seq<char>) -> bool {
    &&& s.len() > 0
    &&& forall|i: int| 0 <= i < s.len() ==> is_digit(s[i])
    &&& digits_value(s) <= 65535
}

/// The port a literal port string denotes.
pub open spec fn spec_port_value(s: Seq<char>) -> u16 {
    digits_value(s) as u16
}

proof fn lemma_digits_value_nonneg(s: Seq<char>)
    requires
        forall|i: int| 0 <= i < s.len() ==> is_digit(s[i]),
    ensures
        digits_value(s) >= 0,
    decreases s.len(),
{
    if s.len() > 0 {
        assert(forall|i: int| 0 <= i < s.drop_last().len() ==> is_digit(#[trigger] s.drop_last()[i]));
        lemma_digits_value_nonneg(s.drop_last());
    }
}

proof fn lemma_digits_value_monotonic(s: Seq<char>, i: int)
    requires
        0 <= i <= s.len(),
        forall|j: int| 0 <= j < s.len() ==> is_digit(s[j]),
    ensures
        digits_value(s.take(i)) <= digits_value(s),
    decreases s.len() - i,
{
    if i == s.len() {
        assert(s.take(i) =~= s);
    } else {
        assert(s.take(i + 1).drop_last() =~= s.take(i));
        assert(forall|j: int| 0 <= j < s.take(i).len() ==> is_digit(#[trigger] s.take(i)[j]));
        lemma_digits_value_nonneg(s.take(i));
        assert(digits_value(s.take(i + 1))
            == digits_value(s.take(i)) * 10 + (s[i] as int - '0' as int));
        lemma_digits_value_monotonic(s, i + 1);
    }
}

/// Parses a literal decimal port number; `None` on anything else.
pub fn parse_port(s: &str) -> (r: Option<u16>)
    ensures
        r == (if is_port_string(s@) {
            Some(spec_port_value(s@))
        } else {
            None::<u16>
        }),
{
    let n = s.unicode_len();
    if n == 0 {
        return None;
    }
    let mut value: u32 = 0;
    let mut i: usize = 0;
    while i < n
        invariant
            0 <= i <= n,
            n == s@.len(),
            forall|j: int| 0 <= j < i ==> is_digit(s@[j]),
            value == digits_value(s@.take(i as int)),
            value <= 65535,
        decreases n - i,
    {
        let c = s.get_char(i);
        if !('0' <= c && c <= '9') {
            return None;
        }
        let d = (c as u32) - 48;
        proof {
            assert(s@.take(i + 1).drop_last() =~= s@.take(i as int));
            assert(s@.take(i + 1).last() == s@[i as int]);
        }
        let next = value * 10 + d;
        if next > 65535 {
            proof {
                if forall|j: int| 0 <= j < s@.len() ==> is_digit(s@[j]) {
                    lemma_digits_value_monotonic(s@, i + 1);
                }
            }
            return None;
        }
        value = next;
        i = i + 1;
    }
    proof {
        assert(s@.take(n as int) =~= s@);
    }
    Some(value as u16)
}

/// The smallest element of a non-empty sequence of ports.
pub open spec fn seq_min(s: Seq<u16>) -> u16
    decreases s.len(),
{
    if s.len() <= 1 {
        s[0]
    } else {
        let m = seq_min(s.drop_last());
        if s.last() < m {
            s.last()
        } else {
            m
        }
    }
}

/// The concrete ports of an inclusive range, in ascending order; empty when
/// the range runs backwards.
pub open spec fn port_range_values(low: u16, high: u16) -> Seq<u16> {
    if low <= high {
        Seq::new((high - low + 1) as nat, |i: int| (low + i) as u16)
    } else {
        Seq::empty()
    }
}

/// The concrete container-side ports of one mapping.
pub open spec fn container_port_values(p: PortMapping) -> Seq<u16> {
    match p.container_ports {
        Ports::Port(x) => seq![x],
        Ports::Range(low, high) => port_range_values(low, high),
    }
}

/// Whether a port or range is well formed: a range must run upwards.
pub open spec fn range_ok(p: Ports) -> bool {
    match p {
        Ports::Port(_) => true,
        Ports::Range(low, high) => low <= high,
    }
}

/// Whether every container-side range of a `ports` list is well formed.
pub open spec fn ports_ranges_valid(ports: Seq<PortMapping>) -> bool {
    forall|i: int| 0 <= i < ports.len() ==> range_ok(#[trigger] ports[i].container_ports)
}

/// Every concrete container port that the TCP entries of a `ports` list
/// publish, in the order the list gives them.
pub open spec fn tcp_port_values(ports: Seq<PortMapping>) -> Seq<u16>
    decreases ports.len(),
{
    if ports.len() == 0 {
        Seq::empty()
    } else {
        tcp_port_values(ports.drop_last()) + (if ports.last().protocol == Protocol::Tcp {
            container_port_values(ports.last())
        } else {
            Seq::empty()
        })
    }
}

/// The ports an `expose` list of literal port strings declares.
pub open spec fn expose_port_values(expose: Seq<Seq<char>>) -> Seq<u16>
    decreases expose.len(),
{
    if expose.len() == 0 {
        Seq::empty()
    } else {
        expose_port_values(expose.drop_last()).push(spec_port_value(expose.last()))
    }
}

/// Whether every entry of a service's `expose` list is a literal port
/// number.
pub open spec fn expose_entries_parseable(expose: Seq<Seq<char>>) -> bool {
    forall|i: int| 0 <= i < expose.len() ==> is_port_string(#[trigger] expose[i])
}

/// Expands the service's published port mappings into every concrete
/// container-side port, keeping the TCP entries only: the target ingress
/// carries no other protocol, so UDP entries are dropped, not errors.  A
/// range that runs backwards is rejected instead of silently emptied.
pub fn expand_service_ports(service: &Service) -> (r: Result<Vec<u16>, ConvertError>)
    ensures
        match r {
            Ok(v) => ports_ranges_valid(service@.ports) && v@ == tcp_port_values(service@.ports),
            Err(e) => !ports_ranges_valid(service@.ports)
                && e@ == ConvertErrorView::InvalidPortRange,
        },
{
    let n = service.ports.len();
    let mut k: usize = 0;
    while k < n
        invariant
            0 <= k <= n,
            n == service@.ports.len(),
            forall|i: int| 0 <= i < k ==> range_ok(#[trigger] service@.ports[i].container_ports),
        decreases n - k,
    {
        match service.ports[k].container_ports {
            Ports::Port(_) => {},
            Ports::Range(low, high) => {
                if low > high {
                    return Err(ConvertError::InvalidPortRange);
                }
            },
        }
        k = k + 1;
    }
    let mut expanded: Vec<u16> = Vec::new();
    let mut i: usize = 0;
    while i < n
        invariant
            0 <= i <= n,
            n == service@.ports.len(),
            ports_ranges_valid(service@.ports),
            expanded@ == tcp_port_values(service@.ports.take(i as int)),
        decreases n - i,
    {
        let mapping = service.ports[i];
        proof {
            assert(service@.ports.take(i + 1).drop_last() =~= service@.ports.take(i as int));
            assert(service@.ports.take(i + 1).last() == service@.ports[i as int]);
        }
        if mapping.protocol == Protocol::Tcp {
            match mapping.container_ports {
                Ports::Port(x) => {
                    expanded.push(x);
                    proof {
                        assert(expanded@ =~= tcp_port_values(service@.ports.take(i + 1)));
                    }
                },
                Ports::Range(low, high) => {
                    proof {
                        assert(range_ok(service@.ports[i as int].container_ports));
                    }
                    let ghost base = expanded@;
                    let mut cur = low;
                    while cur < high
                        invariant
                            low <= cur <= high,
                            expanded@.len() == base.len() + (cur - low),
                            forall|j: int| 0 <= j < base.len() ==> expanded@[j] == base[j],
                            forall|j: int| 0 <= j < cur - low
                                ==> #[trigger] expanded@[base.len() + j] == (low + j) as u16,
                        decreases high - cur,
                    {
                        expanded.push(cur);
                        cur = cur + 1;
                    }
                    let ghost before_last = expanded@;
                    expanded.push(high);
                    proof {
                        let target = base + port_range_values(low, high);
                        assert(expanded@.len() == target.len());
                        assert forall|k: int| 0 <= k < expanded@.len()
                            implies expanded@[k] == target[k] by {
                            if k < base.len() {
                                assert(expanded@[k] == before_last[k]);
                                assert(before_last[k] == base[k]);
                            } else {
                                let j = k - base.len();
                                if j < high - low {
                                    assert(before_last[base.len() + j] == (low + j) as u16);
                                    assert(expanded@[k] == before_last[k]);
                                } else {
                                    assert(expanded@[k] == high);
                                }
                                assert(target[k] == port_range_values(low, high)[j]);
                            }
                        }
                        assert(expanded@ =~= target);
                        assert(expanded@ =~= tcp_port_values(service@.ports.take(i + 1)));
                    }
                },
            }
        } else {
            proof {
                assert(expanded@ =~= tcp_port_values(service@.ports.take(i + 1)));
            }
        }
        i = i + 1;
    }
    proof {
        assert(service@.ports.take(n as int) =~= service@.ports);
    }
    Ok(expanded)
}

/// Parses every entry of the service's `expose` list as a literal port
/// number, in order.
pub fn expand_service_expose(service: &Service) -> (r: Vec<u16>)
    requires
        expose_entries_parseable(service@.expose),
    ensures
        r@ == expose_port_values(service@.expose),
{
    let n = service.expose.len();
    let mut expanded: Vec<u16> = Vec::new();
    let mut i: usize = 0;
    while i < n
        invariant
            0 <= i <= n,
            n == service@.expose.len(),
            expose_entries_parseable(service@.expose),
            expanded@ == expose_port_values(service@.expose.take(i as int)),
        decreases n - i,
    {
        proof {
            assert(service@.expose.take(i + 1).drop_last() =~= service@.expose.take(i as int));
            assert(service@.expose.take(i + 1).last() == service@.expose[i as int]);
            assert(is_port_string(service@.expose[i as int]));
        }
        let port = match parse_port(service.expose[i].as_str()) {
            Some(p) => p,
            None => vstd::pervasive::unreached(),
        };
        expanded.push(port);
        i = i + 1;
    }
    proof {
        assert(service@.expose.take(n as int) =~= service@.expose);
    }
    expanded
}

/// Which of several candidate ports the ingress gets.  The target platform
/// carries exactly one port, and nothing here can ask the user, so the
/// lowest port wins: a fixed, documented selection policy.
pub fn get_selected_port_index(ports: &Vec<u16>) -> (r: usize)
    requires
        ports@.len() > 0,
    ensures
        r < ports@.len(),
        ports@[r as int] == seq_min(ports@),
{
    let mut best: usize = 0;
    let mut i: usize = 1;
    while i < ports.len()
        invariant
            1 <= i <= ports@.len(),
            best < i,
            ports@[best as int] == seq_min(ports@.take(i as int)),
        decreases ports@.len() - i,
    {
        proof {
            assert(ports@.take(i + 1).drop_last() =~= ports@.take(i as int));
            assert(ports@.take(i + 1).last() == ports@[i as int]);
        }
        if ports[i] < ports[best] {
            best = i;
        }
        i = i + 1;
    }
    proof {
        assert(ports@.take(ports@.len() as int) =~= ports@);
    }
    best
}

} // verus!
