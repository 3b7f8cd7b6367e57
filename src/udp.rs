use vstd::prelude::*;

verus! {

/// Tag byte of the message that opens every UDP stream.
pub const REQ_UDP_START_TAG: u8 = 1;

/// Length of that message: tag, family, sixteen address bytes, two port bytes.
pub const REQ_UDP_START_LEN: usize = 20;

/// The address of a UDP peer as plain values: the family (4 or 6), the
/// address bits and the port.
#[derive(Debug, Clone, Copy, PartialEq, Eq, Structural)]
pub struct PeerAddr {
    pub family: u8,
    pub ip: u128,
    pub port: u16,
}

impl PeerAddr {
    /// The family is 4 or 6, and a version 4 address fits in 32 bits.
    pub open spec fn wf(&self) -> bool {
        &&& self.family == 4 || self.family == 6
        &&& self.family == 4 ==> self.ip < 0x1_0000_0000
    }

    pub open spec fn key_spec(&self) -> crate::session_map::PeerKey {
        (self.family, self.ip, self.port)
    }

    /// The key under which the session map files this peer.
    pub fn key(&self) -> (r: crate::session_map::PeerKey)
        ensures
            r == self.key_spec(),
    {
        (self.family, self.ip, self.port)
    }
}

/// `256` to the power `k`.
pub open spec fn pow256(k: nat) -> nat
    decreases k,
{
    if k == 0 { 1 } else { 256 * pow256((k - 1) as nat) }
}

/// The `n` low bytes of `x`, lowest first.
pub open spec fn le_bytes(x: nat, n: nat) -> Seq<u8>
    decreases n,
{
    if n == 0 { Seq::empty() } else { seq![(x % 256) as u8] + le_bytes(x / 256, (n - 1) as nat) }
}

/// The number whose bytes, lowest first, are `s`.
pub open spec fn le_value(s: Seq<u8>) -> nat
    decreases s.len(),
{
    if s.len() == 0 { 0 } else { (s[0] as nat) + 256 * le_value(s.drop_first()) }
}

/// The bytes of the message that opens the stream of `p`.
pub open spec fn udp_start_bytes(p: PeerAddr) -> Seq<u8> {
    seq![REQ_UDP_START_TAG, p.family] + le_bytes(p.ip as nat, 16) + le_bytes(p.port as nat, 2)
}

/// The peer that an opening message names, if `b` is one.
pub open spec fn udp_start_of(b: Seq<u8>) -> Option<PeerAddr> {
    if b.len() == REQ_UDP_START_LEN && b[0] == REQ_UDP_START_TAG && (b[1] == 4 || b[1] == 6)
        && (b[1] == 4 ==> le_value(b.subrange(2, 18)) < 0x1_0000_0000) {
        Some(PeerAddr {
            family: b[1],
            ip: le_value(b.subrange(2, 18)) as u128,
            port: le_value(b.subrange(18, 20)) as u16,
        })
    } else {
        None
    }
}

proof fn lemma_le_round_trip(x: nat, n: nat)
    requires
        x < pow256(n),
    ensures
        le_bytes(x, n).len() == n,
        le_value(le_bytes(x, n)) == x,
    decreases n,
{
    if n == 0 {
    } else {
        let m = (n - 1) as nat;
        assert(x / 256 < pow256(m)) by (nonlinear_arith)
            requires x < 256 * pow256(m), pow256(m) >= 1;
        assert(pow256(m) >= 1) by {
            lemma_pow256_pos(m);
        }
        lemma_le_round_trip(x / 256, m);
        let s = le_bytes(x, n);
        assert(s.drop_first() == le_bytes(x / 256, m));
        assert(x == x % 256 + 256 * (x / 256)) by (nonlinear_arith);
    }
}

proof fn lemma_pow256_pos(k: nat)
    ensures
        pow256(k) >= 1,
    decreases k,
{
    if k > 0 {
        lemma_pow256_pos((k - 1) as nat);
    }
}

proof fn lemma_pow256_mono(a: nat, b: nat)
    requires
        a <= b,
    ensures
        pow256(a) <= pow256(b),
    decreases b,
{
    if a < b {
        lemma_pow256_mono(a, (b - 1) as nat);
        lemma_pow256_pos((b - 1) as nat);
    }
}

proof fn lemma_le_value_bound(s: Seq<u8>)
    ensures
        le_value(s) < pow256(s.len()),
    decreases s.len(),
{
    if s.len() > 0 {
        lemma_le_value_bound(s.drop_first());
        let v = le_value(s.drop_first());
        let p = pow256((s.len() - 1) as nat);
        assert((s[0] as nat) + 256 * v < 256 * p) by (nonlinear_arith)
            requires v < p, (s[0] as nat) < 256;
    }
}

proof fn lemma_pow256_values()
    ensures
        pow256(2) == 0x1_0000,
        pow256(4) == 0x1_0000_0000,
        pow256(16) == 0x1_0000_0000_0000_0000_0000_0000_0000_0000,
{
    reveal_with_fuel(pow256, 17);
}

/// Appends the `n` low bytes of `x`, lowest first.
fn push_le(out: &mut Vec<u8>, x: u128, n: usize)
    requires
        n <= 16,
    ensures
        final(out)@ == old(out)@ + le_bytes(x as nat, n as nat),
{
    let mut v: u128 = x;
    let mut i: usize = 0;
    while i < n
        invariant
            i <= n,
            out@ + le_bytes(v as nat, (n - i) as nat) == old(out)@ + le_bytes(x as nat, n as nat),
        decreases n - i,
    {
        let ghost before = out@;
        out.push((v % 256) as u8);
        proof {
            let k = (n - i) as nat;
            assert(le_bytes(v as nat, k) == seq![(v % 256) as u8] + le_bytes((v / 256) as nat, (k - 1) as nat));
            assert(out@ + le_bytes((v / 256) as nat, (k - 1) as nat) =~= before + le_bytes(v as nat, k));
        }
        v = v / 256;
        i += 1;
    }
    assert(out@ =~= out@ + le_bytes(v as nat, 0));
}

/// The number whose bytes, lowest first, are `b[from..from + n]`.
fn read_le(b: &[u8], from: usize, n: usize) -> (r: u128)
    requires
        n <= 16,
        from + n <= b@.len(),
    ensures
        r == le_value(b@.subrange(from as int, from + n)),
{
    let blen: usize = b.len();
    let mut v: u128 = 0;
    let mut i: usize = n;
    while i > 0
        invariant
            i <= n,
            n <= 16,
            blen == b@.len(),
            from + n <= blen,
            v == le_value(b@.subrange(from + i, from + n)),
        decreases i,
    {
        let ghost tail = b@.subrange(from + i, from + n);
        let ghost s = b@.subrange(from + i - 1, from + n);
        proof {
            assert(s.drop_first() =~= tail);
            lemma_le_value_bound(tail);
            lemma_pow256_mono(tail.len(), 15);
            lemma_pow256_values();
            reveal_with_fuel(pow256, 17);
            assert(pow256(15) * 256 == pow256(16));
            assert(v as nat * 256 + 255 < pow256(16)) by (nonlinear_arith)
                requires (v as nat) < pow256(15), pow256(15) * 256 == pow256(16);
        }
        v = (b[from + i - 1] as u128) + 256 * v;
        i -= 1;
    }
    v
}

/// Writes the message that opens the stream of a UDP peer.
pub fn encode_udp_start(p: PeerAddr) -> (r: Vec<u8>)
    ensures
        r@ == udp_start_bytes(p),
{
    let mut r: Vec<u8> = Vec::with_capacity(REQ_UDP_START_LEN);
    r.push(REQ_UDP_START_TAG);
    r.push(p.family);
    push_le(&mut r, p.ip, 16);
    push_le(&mut r, p.port as u128, 2);
    assert(r@ =~= udp_start_bytes(p));
    r
}

/// Reads the message that must open a UDP stream: the peer it names, or
/// `None` when `b` is not such a message.
pub fn decode_udp_start(b: &[u8]) -> (r: Option<PeerAddr>)
    ensures
        r == udp_start_of(b@),
        r matches Some(p) ==> p.wf(),
{
    if b.len() != REQ_UDP_START_LEN || b[0] != REQ_UDP_START_TAG || (b[1] != 4 && b[1] != 6) {
        return None;
    }
    let ip = read_le(b, 2, 16);
    let port = read_le(b, 18, 2);
    proof {
        lemma_le_value_bound(b@.subrange(18, 20));
        lemma_pow256_values();
    }
    if b[1] == 4 && ip >= 0x1_0000_0000 {
        return None;
    }
    Some(PeerAddr { family: b[1], ip, port: port as u16 })
}

/// The opening message round-trips: what `encode_udp_start` writes for a
/// well-formed peer, `decode_udp_start` reads back as that same peer.
pub proof fn lemma_udp_start_round_trip(p: PeerAddr)
    requires
        p.wf(),
    ensures
        udp_start_of(udp_start_bytes(p)) == Some(p),
{
    lemma_pow256_values();
    lemma_le_round_trip(p.ip as nat, 16);
    lemma_le_round_trip(p.port as nat, 2);
    let b = udp_start_bytes(p);
    assert(b.subrange(2, 18) =~= le_bytes(p.ip as nat, 16));
    assert(b.subrange(18, 20) =~= le_bytes(p.port as nat, 2));
}

/// What the UDP ingress driver does after it failed to get a stream for a
/// datagram.
#[derive(Debug, Clone, Copy, PartialEq, Eq, Structural)]
pub enum UdpIngressStep {
    /// Drop this datagram and take the next one.
    Continue,
    /// Stop; when `notify_tcp`, first send the quit message to the TCP driver.
    Quit { notify_tcp: bool },
}

/// The UDP relay: one QUIC stream per local peer on the ingress side, one
/// upstream socket per stream on the egress side.
pub struct UdpTunnel;

impl UdpTunnel {
    /// After a failed stream open, a datagram is dropped while the tunnel
    /// is up; once the tunnel is closed the driver stops, and tells the
    /// paired TCP driver to quit when there is one.
    pub fn on_open_failure(tunnel_closed: bool, has_tcp_driver: bool) -> (r: UdpIngressStep)
        ensures
            !tunnel_closed ==> r == UdpIngressStep::Continue,
            tunnel_closed ==> r == (UdpIngressStep::Quit { notify_tcp: has_tcp_driver }),
    {
        if tunnel_closed {
            UdpIngressStep::Quit { notify_tcp: has_tcp_driver }
        } else {
            UdpIngressStep::Continue
        }
    }
}

} // verus!
