//! The addresses a server announces when it starts listening.
use vstd::prelude::*;
use crate::format::{format_url_host, url_host};
use crate::text::{dec, push_dec, strings_view};

verus! {

/// An address of a network interface of the machine.
pub struct InterfaceAddress {
    /// The address as text.
    pub address: String,
    /// Whether it is an IPv4 address other than a loopback one.
    pub ipv4_external: bool,
}

/// The announced line of a URL.
pub open spec fn url_line(host: Seq<char>, port: u16) -> Seq<char> {
    "  http://"@ + host + ":"@ + dec(port as nat) + "/"@
}

/// `s` without its repeated items: each kept where it first occurs.
pub open spec fn first_occurrences(s: Seq<Seq<char>>) -> Seq<Seq<char>>
    decreases s.len(),
{
    if s.len() == 0 {
        s
    } else {
        let d = first_occurrences(s.drop_last());
        if d.contains(s.last()) { d } else { d.push(s.last()) }
    }
}

/// The lines of the external IPv4 addresses among `ifaces`.
pub open spec fn interface_lines(ifaces: Seq<(Seq<char>, bool)>, port: u16) -> Seq<Seq<char>>
    decreases ifaces.len(),
{
    if ifaces.len() == 0 {
        seq![]
    } else {
        let rest = interface_lines(ifaces.drop_last(), port);
        if ifaces.last().1 { rest.push(url_line(ifaces.last().0, port)) } else { rest }
    }
}

/// Interfaces as values.
pub open spec fn interfaces_view(v: Seq<InterfaceAddress>) -> Seq<(Seq<char>, bool)> {
    Seq::new(v.len(), |i: int| (v[i].address@, v[i].ipv4_external))
}

/// Whether a host means every interface.
pub open spec fn is_wildcard(host: Seq<char>) -> bool {
    host == "0.0.0.0"@ || host == "::"@
}

/// The lines that announce where a server on `host`:`port` listens: on every interface, the
/// local name and each external IPv4 address once (none when the interfaces could not be
/// read); else the host itself.
pub open spec fn listening_text(host: Seq<char>, port: u16, ifaces: Option<Seq<(Seq<char>, bool)>>) -> Seq<Seq<char>> {
    if is_wildcard(host) {
        seq![url_line("localhost"@, port)] + match ifaces {
            Some(v) => first_occurrences(interface_lines(v, port)),
            None => seq![],
        }
    } else {
        seq![url_line(url_host(host), port)]
    }
}

fn url_line_for(host: &str, port: u16) -> (r: String)
    ensures
        r@ == url_line(host@, port),
{
    let mut r = String::from_str("  http://");
    r.append(host);
    r.append(":");
    push_dec(&mut r, port as u64);
    r.append("/");
    r
}

fn contains_line(lines: &Vec<String>, line: &String) -> (b: bool)
    ensures
        b == strings_view(lines@).contains(line@),
{
    let mut i: usize = 0;
    while i < lines.len()
        invariant
            i <= lines.len(),
            forall|j: int| 0 <= j < i ==> strings_view(lines@)[j] != line@,
        decreases lines.len() - i,
    {
        if lines[i] == *line {
            assert(strings_view(lines@)[i as int] == line@);
            return true;
        }
        i = i + 1;
    }
    false
}

/// The lines that announce where a server listens; `interfaces` are the machine's addresses
/// in the order the system lists them, `None` when they could not be read.
pub fn listening_lines(host: &str, port: u16, interfaces: &Option<Vec<InterfaceAddress>>) -> (r: Vec<String>)
    ensures
        strings_view(r@) == listening_text(host@, port, match interfaces {
            Some(v) => Some(interfaces_view(v@)),
            None => None,
        }),
{
    let h = String::from_str(host);
    let wildcard = h == String::from_str("0.0.0.0") || h == String::from_str("::");
    let mut out: Vec<String> = Vec::new();
    if !wildcard {
        let u = format_url_host(host);
        out.push(url_line_for(u.as_str(), port));
        proof {
            assert(strings_view(out@) =~= seq![url_line(url_host(host@), port)]);
        }
        return out;
    }
    out.push(url_line_for("localhost", port));
    match interfaces {
        None => {
            proof {
                assert(strings_view(out@) =~= seq![url_line("localhost"@, port)] + Seq::<Seq<char>>::empty());
            }
        },
        Some(v) => {
            let ghost iv = interfaces_view(v@);
            let mut found: Vec<String> = Vec::new();
            let mut i: usize = 0;
            proof {
                assert(iv.take(0) =~= Seq::<(Seq<char>, bool)>::empty());
                assert(strings_view(found@) =~= first_occurrences(interface_lines(iv.take(0), port)));
            }
            while i < v.len()
                invariant
                    i <= v.len(),
                    iv == interfaces_view(v@),
                    strings_view(found@) == first_occurrences(interface_lines(iv.take(i as int), port)),
                decreases v.len() - i,
            {
                let ghost prev = strings_view(found@);
                let ghost lines_before = interface_lines(iv.take(i as int), port);
                proof {
                    assert(iv.take(i + 1).drop_last() =~= iv.take(i as int));
                    assert(iv.take(i + 1).last() == iv[i as int]);
                    assert(iv[i as int] == (v@[i as int].address@, v@[i as int].ipv4_external));
                    if v@[i as int].ipv4_external {
                        let l = url_line(v@[i as int].address@, port);
                        assert(interface_lines(iv.take(i + 1), port) == lines_before.push(l));
                        assert(lines_before.push(l).drop_last() =~= lines_before);
                    } else {
                        assert(interface_lines(iv.take(i + 1), port) == lines_before);
                    }
                }
                if v[i].ipv4_external {
                    let line = url_line_for(v[i].address.as_str(), port);
                    if !contains_line(&found, &line) {
                        found.push(line);
                        proof {
                            assert(strings_view(found@) =~= prev.push(line@));
                        }
                    }
                }
                i = i + 1;
            }
            proof {
                assert(iv.take(v.len() as int) =~= iv);
            }
            let ghost head = strings_view(out@);
            let mut j: usize = 0;
            while j < found.len()
                invariant
                    j <= found.len(),
                    head == seq![url_line("localhost"@, port)],
                    strings_view(out@) == head + strings_view(found@).take(j as int),
                decreases found.len() - j,
            {
                let ghost before = strings_view(out@);
                out.push(found[j].clone());
                proof {
                    assert(strings_view(out@) =~= before.push(found@[j as int]@));
                    assert(strings_view(found@).take(j + 1) =~= strings_view(found@).take(j as int).push(found@[j as int]@));
                }
                j = j + 1;
            }
            proof {
                assert(strings_view(found@).take(found.len() as int) =~= strings_view(found@));
            }
        },
    }
    out
}

} // verus!
