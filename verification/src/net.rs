//! IP addresses, networks and the choice of the client address.
use vstd::prelude::*;

verus! {

/// An IP address as its numeric value.
#[derive(Clone, Copy, Debug, PartialEq, Eq, Structural)]
pub enum IpValue {
    V4(u32),
    V6(u128),
}

/// A client's socket address.
#[derive(Clone, Copy, Debug, PartialEq, Eq, Structural)]
pub struct ClientAddr {
    pub ip: IpValue,
    pub port: u16,
}

/// An IP network: an address and the length of its prefix, which never
/// exceeds the address width.
#[derive(Clone, Copy, Debug)]
pub struct IpNet {
    addr: IpValue,
    prefix: u8,
}

/// The number of bits of an address.
pub open spec fn width(ip: IpValue) -> nat {
    match ip {
        IpValue::V4(_) => 32,
        IpValue::V6(_) => 128,
    }
}

/// `a` and `b` agree on their first `prefix` bits (of 32).
pub open spec fn same_prefix_u32(a: u32, b: u32, prefix: nat) -> bool {
    prefix == 0 || (a >> ((32 - prefix) as u32)) == (b >> ((32 - prefix) as u32))
}

/// `a` and `b` agree on their first `prefix` bits (of 128).
pub open spec fn same_prefix_u128(a: u128, b: u128, prefix: nat) -> bool {
    prefix == 0 || (a >> ((128 - prefix) as u32)) == (b >> ((128 - prefix) as u32))
}

/// `ip` lies in the network of address `net` and prefix length `prefix`: both
/// are of one family and agree on the first `prefix` bits.
pub open spec fn net_contains(net: IpValue, prefix: nat, ip: IpValue) -> bool {
    match (net, ip) {
        (IpValue::V4(n), IpValue::V4(a)) => same_prefix_u32(n, a, prefix),
        (IpValue::V6(n), IpValue::V6(a)) => same_prefix_u128(n, a, prefix),
        _ => false,
    }
}

impl View for IpNet {
    type V = (IpValue, nat);

    closed spec fn view(&self) -> (IpValue, nat) {
        (self.addr, self.prefix as nat)
    }
}

impl IpNet {
    #[verifier::type_invariant]
    spec fn prefix_fits(self) -> bool {
        self.prefix as nat <= width(self.addr)
    }

    /// A network, where the prefix length fits the address width.
    pub fn new(addr: IpValue, prefix: u8) -> (r: Option<Self>)
        ensures
            r is Some <==> prefix as nat <= width(addr),
            r matches Some(n) ==> n@ == (addr, prefix as nat),
    {
        let w: u8 = match addr {
            IpValue::V4(_) => 32,
            IpValue::V6(_) => 128,
        };
        if prefix <= w {
            Some(IpNet { addr, prefix })
        } else {
            None
        }
    }

    /// The network address.
    pub fn addr(&self) -> (r: IpValue)
        ensures
            r == self@.0,
    {
        self.addr
    }

    /// The prefix length.
    pub fn prefix(&self) -> (r: u8)
        ensures
            r as nat == self@.1,
            r as nat <= width(self@.0),
    {
        proof {
            use_type_invariant(self);
        }
        self.prefix
    }

    /// Whether `ip` lies in this network.
    pub fn contains(&self, ip: IpValue) -> (r: bool)
        ensures
            r == net_contains(self@.0, self@.1, ip),
    {
        proof {
            use_type_invariant(self);
        }
        match (self.addr, ip) {
            (IpValue::V4(n), IpValue::V4(a)) => {
                if self.prefix == 0 {
                    true
                } else {
                    let shift: u32 = 32 - self.prefix as u32;
                    (n >> shift) == (a >> shift)
                }
            },
            (IpValue::V6(n), IpValue::V6(a)) => {
                if self.prefix == 0 {
                    true
                } else {
                    let shift: u32 = 128 - self.prefix as u32;
                    (n >> shift) == (a >> shift)
                }
            },
            _ => false,
        }
    }
}

/// What `ipnetwork` reads from a network's text (`a.b.c.d/p`, an IPv6 form,
/// or a netmask): its address and prefix length, or nothing where the text
/// is not a network.
pub uninterp spec fn cidr_parse(s: Seq<char>) -> Option<(IpValue, u8)>;

/// Calls `str::parse::<ipnetwork::IpNetwork>` and reads the address and
/// prefix of the result: the result is named `cidr_parse`, and a prefix that
/// parses never exceeds the address width (`ipnetwork` refuses longer ones).
#[verifier::external_body]
fn parse_cidr(s: &str) -> (r: Option<(IpValue, u8)>)
    ensures
        r == cidr_parse(s@),
        r matches Some(p) ==> p.1 as nat <= width(p.0),
{
    match s.parse::<ipnetwork::IpNetwork>() {
        Ok(ipnetwork::IpNetwork::V4(n)) => Some((IpValue::V4(u32::from(n.ip())), n.prefix())),
        Ok(ipnetwork::IpNetwork::V6(n)) => Some((IpValue::V6(u128::from(n.ip())), n.prefix())),
        Err(_) => None,
    }
}

/// The network that a parse result describes, where its prefix fits.
pub open spec fn net_of(parsed: Option<(IpValue, u8)>) -> Option<(IpValue, nat)> {
    match parsed {
        Some((a, p)) => if p as nat <= width(a) {
            Some((a, p as nat))
        } else {
            None
        },
        None => None,
    }
}

/// The text of an optional network.
pub open spec fn opt_net_view(n: Option<IpNet>) -> Option<(IpValue, nat)> {
    match n {
        Some(x) => Some(x@),
        None => None,
    }
}

/// The network that a parse result describes.
pub fn network_from_parse(parsed: Option<(IpValue, u8)>) -> (r: Option<IpNet>)
    ensures
        opt_net_view(r) == net_of(parsed),
{
    match parsed {
        Some((a, p)) => IpNet::new(a, p),
        None => None,
    }
}

/// Reads a network from its text.
pub fn parse_network(s: &str) -> (r: Option<IpNet>)
    ensures
        opt_net_view(r) == net_of(cidr_parse(s@)),
        r is Some <==> cidr_parse(s@) is Some,
{
    network_from_parse(parse_cidr(s))
}

/// The networks GitHub sends webhook deliveries from, as text.
pub open spec fn github_cidrs() -> Seq<Seq<char>> {
    seq![
        "192.30.252.0/22"@,
        "185.199.108.0/22"@,
        "140.82.112.0/20"@,
        "143.55.64.0/20"@,
        "2a0a:a440::/29"@,
        "2606:50c0::/32"@,
    ]
}

/// The networks GitHub sends webhook deliveries from, as text.
pub fn github_webhook_ips() -> (r: Vec<&'static str>)
    ensures
        r@.map_values(|t: &str| t@) == github_cidrs(),
{
    let r: Vec<&'static str> = vec![
        "192.30.252.0/22",
        "185.199.108.0/22",
        "140.82.112.0/20",
        "143.55.64.0/20",
        "2a0a:a440::/29",
        "2606:50c0::/32",
    ];
    assert(r@.map_values(|t: &str| t@) =~= github_cidrs());
    r
}

/// The networks that a list of texts reads as, in order, skipping the texts
/// that are not networks.
pub open spec fn parsed_networks(texts: Seq<Seq<char>>) -> Seq<(IpValue, nat)>
    decreases texts.len(),
{
    if texts.len() == 0 {
        Seq::empty()
    } else {
        let rest = parsed_networks(texts.drop_last());
        match net_of(cidr_parse(texts.last())) {
            Some(n) => rest.push(n),
            None => rest,
        }
    }
}

/// Reads every network of a list of texts, skipping those that are not networks.
pub fn parse_networks(texts: &Vec<&str>) -> (r: Vec<IpNet>)
    ensures
        r@.map_values(|n: IpNet| n@) == parsed_networks(texts@.map_values(|t: &str| t@)),
{
    let ghost all = texts@.map_values(|t: &str| t@);
    let n: usize = texts.len();
    let mut out: Vec<IpNet> = Vec::new();
    let mut i: usize = 0;
    while i < n
        invariant
            n == texts@.len(),
            i <= n,
            all == texts@.map_values(|t: &str| t@),
            out@.map_values(|x: IpNet| x@) == parsed_networks(all.take(i as int)),
        decreases n - i,
    {
        assert(all.take(i + 1).drop_last() =~= all.take(i as int));
        assert(all.take(i + 1).last() == texts@[i as int]@);
        let ghost before = out@;
        match parse_network(texts[i]) {
            Some(net) => {
                out.push(net);
                assert(out@.map_values(|x: IpNet| x@) =~= before.map_values(|x: IpNet| x@).push(
                    net@,
                ));
            },
            None => {},
        }
        i += 1;
    }
    assert(all.take(n as int) =~= all);
    out
}

/// The networks GitHub sends webhook deliveries from.
pub fn github_networks() -> (r: Vec<IpNet>)
    ensures
        r@.map_values(|n: IpNet| n@) == parsed_networks(github_cidrs()),
{
    let texts: Vec<&'static str> = github_webhook_ips();
    parse_networks(&texts)
}

/// Some network of `nets` holds `ip`.
pub open spec fn any_net_contains(nets: Seq<IpNet>, ip: IpValue) -> bool {
    exists|i: int| 0 <= i < nets.len() && net_contains(#[trigger] nets[i]@.0, nets[i]@.1, ip)
}

/// Whether the client's address lies in one of the given networks.
pub fn is_github_ip(addr: ClientAddr, github_ips: &[IpNet]) -> (r: bool)
    ensures
        r == any_net_contains(github_ips@, addr.ip),
{
    let n: usize = github_ips.len();
    let mut i: usize = 0;
    while i < n
        invariant
            n == github_ips@.len(),
            i <= n,
            forall|j: int| 0 <= j < i ==> !net_contains(#[trigger] github_ips@[j]@.0, github_ips@[j]@.1, addr.ip),
        decreases n - i,
    {
        if github_ips[i].contains(addr.ip) {
            return true;
        }
        i += 1;
    }
    false
}

/// The client address: the forwarded socket address where one was given,
/// else the forwarded IP with the connection's port, else the connection's address.
pub open spec fn client_addr_spec(
    forwarded_socket: Option<ClientAddr>,
    forwarded_ip: Option<IpValue>,
    connection: ClientAddr,
) -> ClientAddr {
    match forwarded_socket {
        Some(a) => a,
        None => match forwarded_ip {
            Some(ip) => ClientAddr { ip, port: connection.port },
            None => connection,
        },
    }
}

/// Chooses the client address from what the `X-Forwarded-For` header parsed to
/// and the address of the connection.
pub fn get_client_addr(
    forwarded_socket: Option<ClientAddr>,
    forwarded_ip: Option<IpValue>,
    connection: ClientAddr,
) -> (r: ClientAddr)
    ensures
        r == client_addr_spec(forwarded_socket, forwarded_ip, connection),
{
    match forwarded_socket {
        Some(a) => a,
        None => match forwarded_ip {
            Some(ip) => ClientAddr { ip, port: connection.port },
            None => connection,
        },
    }
}


/// A network holds its own address; a network of prefix 0 holds every
/// address of its family; no network holds an address of the other family.
pub proof fn lemma_net_contains_basics(net: IpValue, prefix: nat, ip: IpValue)
    requires
        prefix <= width(net),
    ensures
        net_contains(net, prefix, net),
        (prefix == 0 && width(ip) == width(net)) ==> net_contains(net, prefix, ip),
        width(ip) != width(net) ==> !net_contains(net, prefix, ip),
{
}

/// The client is the forwarded socket address where one was given; else the
/// forwarded IP at the connection's port; else the connection itself.
pub proof fn lemma_client_choice(
    forwarded_socket: Option<ClientAddr>,
    forwarded_ip: Option<IpValue>,
    connection: ClientAddr,
)
    ensures
        forwarded_socket is Some ==> client_addr_spec(forwarded_socket, forwarded_ip, connection)
            == forwarded_socket->0,
        (forwarded_socket is None && forwarded_ip is Some) ==> client_addr_spec(
            forwarded_socket,
            forwarded_ip,
            connection,
        ) == (ClientAddr { ip: forwarded_ip->0, port: connection.port }),
        (forwarded_socket is None && forwarded_ip is None) ==> client_addr_spec(
            forwarded_socket,
            forwarded_ip,
            connection,
        ) == connection,
{
}

} // verus!
