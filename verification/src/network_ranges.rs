//! The address and port plan for VM networks: a subnet cut into
//! point-to-point (RFC 3021) pairs, each paired with one inbound SSH port.

use crate::ipv4::{block_size, broadcast_of, lemma_block_fits, network_of, Ipv4Net};
use core::ops::Range;
use vstd::arithmetic::power2::{lemma_pow2_adds, lemma_pow2_pos, pow2};
use vstd::prelude::*;

verus! {

/// The number of ports in a half-open range.
pub open spec fn port_count(r: Range<u16>) -> nat {
    if r.end > r.start {
        (r.end - r.start) as nat
    } else {
        0
    }
}

/// The number of point-to-point address pairs in a block.
pub open spec fn pair_count(prefix_len: u8) -> nat {
    block_size(prefix_len) / 2
}

pub open spec fn min_nat(a: nat, b: nat) -> nat {
    if a <= b {
        a
    } else {
        b
    }
}

/// `k` is the base-2 logarithm of `m`, rounded down.
pub open spec fn is_floor_log2(k: nat, m: nat) -> bool {
    pow2(k) <= m < pow2(k + 1)
}

/// The ranges that `NetworkRanges::new` makes of a subnet and a port range:
/// the number of VMs is the largest power of two that both can serve, the
/// subnet keeps its first address and the port range its first port.
pub open spec fn minimized_from(subnet_addr: u32, subnet_prefix: u8, ports: Range<u16>, out_addr: u32, out_prefix: u8, out_ports: Range<u16>) -> bool {
    let m = min_nat(pair_count(subnet_prefix), port_count(ports));
    let k = (31 - out_prefix) as nat;
    &&& out_prefix <= 31
    &&& is_floor_log2(k, m)
    &&& out_addr == network_of(subnet_addr, subnet_prefix)
    &&& out_ports.start == ports.start
    &&& out_ports.end == ports.start + pow2(k)
}

/// The error returned when the subnet or the port range leaves room for no VM.
#[derive(Debug, Clone, Copy, PartialEq, Eq)]
pub enum NetworkRangesError {
    SizeZero,
}

impl NetworkRangesError {
    /// The error's message.
    pub fn to_string(&self) -> (r: String)
        ensures
            r@ == "NetworkRanges with size 0 defined"@,
    {
        proof {
            broadcast use vstd::string::to_string_from_display_ensures_for_str;
        }
        "NetworkRanges with size 0 defined".to_string()
    }
}

/// Params for creating a network manager. The manager created will use the
/// smaller of the provided network ranges.
#[derive(Debug)]
pub struct NetworkRanges {
    pub vm_subnet: Ipv4Net,
    pub ssh_port_range: Range<u16>,
}

impl Clone for NetworkRanges {
    fn clone(&self) -> (r: Self)
        ensures
            r == *self,
    {
        NetworkRanges {
            vm_subnet: self.vm_subnet,
            ssh_port_range: self.ssh_port_range.start..self.ssh_port_range.end,
        }
    }
}

/// Yields IP pairs and SSH ports from a `NetworkRanges`.
pub struct NetworkRangesIter {
    current: u32,
    end: u32,
    current_port: u16,
    end_port: u16,
}

/// The state of a [`NetworkRangesIter`].
pub struct NetworkRangesIterView {
    pub current: u32,
    pub end: u32,
    pub current_port: u16,
    pub end_port: u16,
}

impl View for NetworkRangesIter {
    type V = NetworkRangesIterView;

    closed spec fn view(&self) -> NetworkRangesIterView {
        NetworkRangesIterView {
            current: self.current,
            end: self.end,
            current_port: self.current_port,
            end_port: self.end_port,
        }
    }
}

/// The largest power of two not above `m`, with its exponent.
fn floor_log2(m: u64) -> (r: (u32, u64))
    requires
        m >= 1,
    ensures
        is_floor_log2(r.0 as nat, m as nat),
        r.1 == pow2(r.0 as nat),
        r.0 <= 63,
{
    let mut k: u32 = 0;
    let mut p: u64 = 1;
    proof {
        vstd::arithmetic::power2::lemma2_to64();
    }
    while p <= m / 2
        invariant
            1 <= p <= m,
            p == pow2(k as nat),
            k <= 63,
        decreases m - p,
    {
        proof {
            lemma_pow2_adds(k as nat, 1);
            vstd::arithmetic::power2::lemma2_to64();
            if k >= 63 {
                vstd::arithmetic::power2::lemma2_to64_rest();
                vstd::arithmetic::power2::lemma_pow2_strictly_increases(63, k as nat);
                assert(false);
            }
        }
        p = p * 2;
        k = k + 1;
        proof {
            if k > 63 {
                assert(false);
            }
        }
    }
    proof {
        lemma_pow2_adds(k as nat, 1);
        vstd::arithmetic::power2::lemma2_to64();
    }
    (k, p)
}

/// In a block of `2^(k+1)` addresses there are `2^k` pairs.
proof fn lemma_pair_count_of_prefix(k: nat)
    requires
        k <= 31,
    ensures
        pair_count((31 - k) as u8) == pow2(k),
        block_size((31 - k) as u8) == 2 * pow2(k),
{
    lemma_pow2_adds(k, 1);
    vstd::arithmetic::power2::lemma2_to64();
}

impl NetworkRanges {
    /// Creates a `NetworkRanges`, minimized: the number of VMs is the largest
    /// power of two not above either the number of address pairs in
    /// `vm_subnet` or the number of ports in `ssh_port_range`. The subnet keeps
    /// its network address and the port range its first port. Fails when
    /// either leaves room for no VM.
    pub fn new(vm_subnet: Ipv4Net, ssh_port_range: Range<u16>) -> (r: Result<Self, NetworkRangesError>)
        ensures
            min_nat(pair_count(vm_subnet@.prefix_len), port_count(ssh_port_range)) == 0
                <==> r is Err,
            r matches Ok(out) ==> minimized_from(
                vm_subnet@.addr,
                vm_subnet@.prefix_len,
                ssh_port_range,
                out.vm_subnet@.addr,
                out.vm_subnet@.prefix_len,
                out.ssh_port_range,
            ),
            r matches Ok(out) ==> out.is_minimized(),
    {
        let value = NetworkRanges { vm_subnet, ssh_port_range };
        value.minimize()
    }

    /// The number of address pairs equals the number of ports, a power of
    /// two, and the subnet starts at its network address.
    pub open spec fn is_minimized(&self) -> bool {
        let k = (31 - self.vm_subnet@.prefix_len) as nat;
        &&& self.vm_subnet@.prefix_len <= 31
        &&& self.vm_subnet@.addr == network_of(self.vm_subnet@.addr, self.vm_subnet@.prefix_len)
        &&& self.ssh_port_range.start + pow2(k) == self.ssh_port_range.end
    }

    fn minimize(self) -> (r: Result<Self, NetworkRangesError>)
        ensures
            min_nat(pair_count(self.vm_subnet@.prefix_len), port_count(self.ssh_port_range)) == 0
                <==> r is Err,
            r matches Ok(out) ==> minimized_from(
                self.vm_subnet@.addr,
                self.vm_subnet@.prefix_len,
                self.ssh_port_range,
                out.vm_subnet@.addr,
                out.vm_subnet@.prefix_len,
                out.ssh_port_range,
            ),
            r matches Ok(out) ==> out.is_minimized(),
    {
        let prefix = self.vm_subnet.prefix_len();
        let network = self.vm_subnet.network();
        let broadcast = self.vm_subnet.broadcast();
        proof {
            lemma_block_fits(self.vm_subnet@.addr, prefix);
        }
        let subnet_size: u64 = (broadcast as u64 - network as u64) + 1;
        let start = self.ssh_port_range.start;
        let end = self.ssh_port_range.end;
        let ssh_range_size: u64 = if end > start {
            (end - start) as u64
        } else {
            0
        };
        let pairs = subnet_size / 2;
        let minimum_size = if pairs <= ssh_range_size {
            pairs
        } else {
            ssh_range_size
        };
        if minimum_size == 0 {
            return Err(NetworkRangesError::SizeZero);
        }
        let (floor_log2, num_ports) = floor_log2(minimum_size);
        proof {
            // 2^floor_log2 <= pairs = 2^(31 - prefix), so floor_log2 <= 31 - prefix
            lemma_pow2_pos(floor_log2 as nat);
            if prefix == 32 {
                assert(block_size(32) == 1) by {
                    vstd::arithmetic::power2::lemma2_to64();
                }
                assert(false);
            } else {
                lemma_pair_count_of_prefix((31 - prefix) as nat);
                if floor_log2 as int > 31 - prefix {
                    vstd::arithmetic::power2::lemma_pow2_strictly_increases(
                        (31 - prefix) as nat,
                        floor_log2 as nat,
                    );
                    assert(false);
                }
            }
        }
        let prefix_len: u8 = (31 - floor_log2) as u8;
        let vm_subnet = Ipv4Net::new_assert(network, prefix_len);
        let ssh_port_range = start..(start + num_ports as u16);
        proof {
            lemma_pair_count_of_prefix(floor_log2 as nat);
            // the new block starts at the old network address, which is aligned
            // to the (larger or equal) old block size
            lemma_aligned_network(network, prefix, prefix_len);
        }
        Ok(NetworkRanges { vm_subnet, ssh_port_range })
    }

    /// Creates an iterator that yields IP pairs and SSH ports.
    pub fn iter(&self) -> (r: NetworkRangesIter)
        ensures
            r@.current == network_of(self.vm_subnet@.addr, self.vm_subnet@.prefix_len),
            r@.end == broadcast_of(self.vm_subnet@.addr, self.vm_subnet@.prefix_len),
            r@.current_port == self.ssh_port_range.start,
            r@.end_port == self.ssh_port_range.end,
    {
        let start = self.vm_subnet.network();
        let end = self.vm_subnet.broadcast();
        NetworkRangesIter {
            current: start,
            end,
            current_port: self.ssh_port_range.start,
            end_port: self.ssh_port_range.end,
        }
    }

    /// Returns the number of IP pairs represented by the NetworkRanges
    /// (the length of its port range). Assumes that self is minimized.
    pub fn get_ip_pair_count(&self) -> (r: usize)
        ensures
            r == port_count(self.ssh_port_range),
    {
        let start = self.ssh_port_range.start;
        let end = self.ssh_port_range.end;
        if end > start {
            (end - start) as usize
        } else {
            0
        }
    }

    /// All the items that `iter` yields, in order. On minimized ranges there
    /// are exactly `get_ip_pair_count()` of them: the `i`-th pairs the
    /// addresses `network + 2i` and `network + 2i + 1` with port `start + i`.
    pub fn pairs(&self) -> (r: Vec<((Ipv4Net, Ipv4Net), u16)>)
        ensures
            self.is_minimized() ==> r@.len() == port_count(self.ssh_port_range),
            self.is_minimized() ==> forall|i: int|
                0 <= i < r@.len() ==> {
                    &&& (#[trigger] r@[i]).0.0@.addr == self.vm_subnet@.addr + 2 * i
                    &&& r@[i].0.0@.prefix_len == 31
                    &&& r@[i].0.1@.addr == self.vm_subnet@.addr + 2 * i + 1
                    &&& r@[i].0.1@.prefix_len == 31
                    &&& r@[i].1 == self.ssh_port_range.start + i
                },
    {
        let mut it = self.iter();
        let mut out: Vec<((Ipv4Net, Ipv4Net), u16)> = Vec::new();
        let ghost minimized = self.is_minimized();
        let ghost base = self.vm_subnet@.addr as int;
        let ghost n = port_count(self.ssh_port_range);
        proof {
            if minimized {
                let k = (31 - self.vm_subnet@.prefix_len) as nat;
                lemma_pair_count_of_prefix(k);
                lemma_block_fits(self.vm_subnet@.addr, self.vm_subnet@.prefix_len);
                lemma_pow2_pos(k);
                lemma_aligned_is_even(base, k);
            }
        }
        loop
            invariant
                minimized == self.is_minimized(),
                base == self.vm_subnet@.addr,
                n == port_count(self.ssh_port_range),
                minimized ==> {
                    &&& out@.len() < n ==> it@.current == base + 2 * out@.len()
                    &&& it@.end == base + 2 * n - 1
                    &&& it@.current_port == self.ssh_port_range.start + out@.len()
                    &&& it@.end_port == self.ssh_port_range.start + n
                    &&& out@.len() <= n
                    &&& base + 2 * n - 1 <= u32::MAX
                    &&& base % 2 == 0
                },
                minimized ==> forall|i: int|
                    0 <= i < out@.len() ==> {
                        &&& (#[trigger] out@[i]).0.0@.addr == base + 2 * i
                        &&& out@[i].0.0@.prefix_len == 31
                        &&& out@[i].0.1@.addr == base + 2 * i + 1
                        &&& out@[i].0.1@.prefix_len == 31
                        &&& out@[i].1 == self.ssh_port_range.start + i
                    },
            ensures
                minimized ==> out@.len() == n,
                minimized ==> forall|i: int|
                    0 <= i < out@.len() ==> {
                        &&& (#[trigger] out@[i]).0.0@.addr == base + 2 * i
                        &&& out@[i].0.0@.prefix_len == 31
                        &&& out@[i].0.1@.addr == base + 2 * i + 1
                        &&& out@[i].0.1@.prefix_len == 31
                        &&& out@[i].1 == self.ssh_port_range.start + i
                    },
            decreases (it@.end - it@.current) + (it@.end_port - it@.current_port) + 2,
        {
            let ghost before = it@;
            match it.next() {
                Some(item) => {
                    proof {
                        if minimized {
                            assert(out@.len() < n);
                            assert(before.current % 2 == 0) by {
                                vstd::arithmetic::div_mod::lemma_mod_multiples_vanish(
                                    out@.len() as int,
                                    base,
                                    2,
                                );
                            }
                        }
                    }
                    out.push(item);
                },
                None => {
                    break;
                },
            }
        }
        out
    }
}

/// An address aligned to a block of `2^(32-p)` addresses stays aligned to
/// any smaller block, so it is its own network address there.
proof fn lemma_aligned_network(addr: u32, p: u8, q: u8)
    requires
        p <= q <= 32,
        addr as int % block_size(p) as int == 0,
    ensures
        addr == network_of(addr, q),
{
    let hp = (32 - p) as nat;
    let hq = (32 - q) as nat;
    lemma_pow2_adds(hq, (hp - hq) as nat);
    lemma_pow2_pos(hq);
    lemma_pow2_pos((hp - hq) as nat);
    let a = addr as int;
    let bq = pow2(hq) as int;
    let f = pow2((hp - hq) as nat) as int;
    let bp = pow2(hp) as int;
    assert(bp == bq * f);
    vstd::arithmetic::mul::lemma_mul_strictly_positive(bq, f);
    vstd::arithmetic::div_mod::lemma_fundamental_div_mod(a, bp);
    let t = a / bp;
    assert(a == bp * t);
    vstd::arithmetic::mul::lemma_mul_is_associative(bq, f, t);
    vstd::arithmetic::mul::lemma_mul_is_commutative(bq, f * t);
    vstd::arithmetic::div_mod::lemma_mod_multiples_basic(f * t, bq);
}

/// An address aligned to a block of `2^(k+1)` addresses is even.
proof fn lemma_aligned_is_even(a: int, k: nat)
    requires
        a % (2 * pow2(k)) as int == 0,
        a >= 0,
    ensures
        a % 2 == 0,
{
    lemma_pow2_pos(k);
    let b = (2 * pow2(k)) as int;
    vstd::arithmetic::div_mod::lemma_fundamental_div_mod(a, b);
    let t = a / b;
    vstd::arithmetic::mul::lemma_mul_is_associative(2, pow2(k) as int, t);
    vstd::arithmetic::mul::lemma_mul_is_commutative(2, pow2(k) as int * t);
    vstd::arithmetic::div_mod::lemma_mod_multiples_basic(pow2(k) as int * t, 2);
}

impl NetworkRangesIter {
    /// Yields the next host/VM address pair (each a /31) and SSH port, or
    /// `None` once either the addresses or the ports are used up.
    pub fn next(&mut self) -> (r: Option<((Ipv4Net, Ipv4Net), u16)>)
        ensures
            ({
                let o = old(self)@;
                if o.current >= o.end || o.current_port >= o.end_port {
                    r is None && final(self)@ == o
                } else {
                    let pos = o.current - o.current % 2;
                    &&& r matches Some(item) && {
                        &&& item.0.0@.addr == pos
                        &&& item.0.0@.prefix_len == 31
                        &&& item.0.1@.addr == pos + 1
                        &&& item.0.1@.prefix_len == 31
                        &&& item.1 == o.current_port
                    }
                    &&& final(self)@.current == (if o.current + 2 > u32::MAX {
                        u32::MAX as int
                    } else {
                        o.current + 2
                    })
                    &&& final(self)@.end == o.end
                    &&& final(self)@.current_port == o.current_port + 1
                    &&& final(self)@.end_port == o.end_port
                }
            }),
    {
        if self.current >= self.end || self.current_port >= self.end_port {
            return None;
        }
        let pos = self.current - self.current % 2;
        let host_ip = Ipv4Net::new_assert(pos, 31);
        let vm_ip = Ipv4Net::new_assert(pos + 1, 31);
        let port = self.current_port;
        self.current = self.current.saturating_add(2);
        self.current_port = self.current_port + 1;
        Some(((host_ip, vm_ip), port))
    }
}

} // verus!
