use vstd::prelude::*;

verus! {

/// The formatted IPv4 and IPv6 address lines of one network interface,
/// shown when the interface reports both.
#[derive(Debug)]
pub struct IpAddr {
    pub ipv4: String,
    pub ipv6: String,
}

impl IpAddr {
    /// Pairs the two formatted address lines.
    pub fn new(ipv4: String, ipv6: String) -> (r: Self)
        ensures
            r.ipv4@ == ipv4@,
            r.ipv6@ == ipv6@,
    {
        IpAddr { ipv4, ipv6 }
    }
}

/// Pairs an interface's formatted address lines: the pair is shown exactly
/// when the interface reported two networks, and then in the order they
/// were reported.
pub fn pair_addr_lines(lines: Vec<String>) -> (r: Option<IpAddr>)
    ensures
        lines@.len() == 2 ==> r is Some && r->0.ipv4@ == lines@[0]@ && r->0.ipv6@ == lines@[1]@,
        lines@.len() != 2 ==> r is None,
{
    let mut lines = lines;
    if lines.len() == 2 {
        let second = lines.remove(1);
        let first = lines.remove(0);
        Some(IpAddr::new(first, second))
    } else {
        None
    }
}

} // verus!
