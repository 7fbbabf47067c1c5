//! IPv4 networks (address + prefix length) and the arithmetic of their
//! blocks. Addresses are held as `u32` in network byte order
//! (`a.b.c.d` is `a << 24 | b << 16 | c << 8 | d`).

use vstd::arithmetic::power2::{lemma_pow2_adds, lemma_pow2_pos, pow2};
use vstd::prelude::*;

verus! {

/// The number of addresses in a block with the given prefix length.
pub open spec fn block_size(prefix_len: u8) -> nat {
    pow2((32 - prefix_len) as nat)
}

/// The first address of the block of `addr`.
pub open spec fn network_of(addr: u32, prefix_len: u8) -> int {
    addr - (addr as int % block_size(prefix_len) as int)
}

/// The last address of the block of `addr`.
pub open spec fn broadcast_of(addr: u32, prefix_len: u8) -> int {
    network_of(addr, prefix_len) + block_size(prefix_len) - 1
}

/// Computes `2^k`.
pub fn pow2_u64(k: u32) -> (r: u64)
    requires
        k <= 63,
    ensures
        r == pow2(k as nat),
{
    let mut r: u64 = 1;
    let mut i: u32 = 0;
    proof {
        vstd::arithmetic::power2::lemma2_to64();
    }
    while i < k
        invariant
            i <= k <= 63,
            r == pow2(i as nat),
        decreases k - i,
    {
        proof {
            lemma_pow2_adds(i as nat, 1);
            vstd::arithmetic::power2::lemma2_to64();
            vstd::bits::lemma_u64_pow2_no_overflow(i as nat + 1);
        }
        r = r * 2;
        i = i + 1;
    }
    r
}

/// `2^32` is a multiple of every block size, so a block never crosses the end
/// of the address space.
pub proof fn lemma_block_fits(addr: u32, prefix_len: u8)
    requires
        prefix_len <= 32,
    ensures
        block_size(prefix_len) >= 1,
        0 <= network_of(addr, prefix_len) <= addr,
        broadcast_of(addr, prefix_len) <= u32::MAX,
        addr <= broadcast_of(addr, prefix_len),
        network_of(addr, prefix_len) % block_size(prefix_len) as int == 0,
{
    let h = (32 - prefix_len) as nat;
    let bs = pow2(h) as int;
    lemma_pow2_pos(h);
    lemma_pow2_pos((32 - h) as nat);
    lemma_pow2_adds(h, (32 - h) as nat);
    vstd::arithmetic::power2::lemma2_to64();
    vstd::arithmetic::power2::lemma2_to64_rest();
    let a = addr as int;
    let q = a / bs;
    let r = a % bs;
    vstd::arithmetic::div_mod::lemma_fundamental_div_mod(a, bs);
    vstd::arithmetic::div_mod::lemma_mod_pos_bound(a, bs);
    let m = pow2((32 - h) as nat) as int;
    assert(bs * m == 0x1_0000_0000);
    // q < m, because bs * q <= a < bs * m
    if q >= m {
        vstd::arithmetic::mul::lemma_mul_inequality(m, q, bs);
        vstd::arithmetic::mul::lemma_mul_is_commutative(m, bs);
        vstd::arithmetic::mul::lemma_mul_is_commutative(q, bs);
        assert(false);
    }
    vstd::arithmetic::mul::lemma_mul_inequality(q + 1, m, bs);
    vstd::arithmetic::mul::lemma_mul_is_commutative(q + 1, bs);
    vstd::arithmetic::mul::lemma_mul_is_commutative(m, bs);
    vstd::arithmetic::mul::lemma_mul_is_distributive_add(bs, q, 1);
    assert(network_of(addr, prefix_len) == bs * q);
    vstd::arithmetic::div_mod::lemma_mod_multiples_basic(q, bs);
    vstd::arithmetic::mul::lemma_mul_is_commutative(q, bs);
}

/// The error returned when a prefix length exceeds 32.
#[derive(Debug, Clone, Copy, PartialEq, Eq)]
pub struct PrefixLenError;

/// The view of an [`Ipv4Net`].
pub struct Ipv4NetView {
    pub addr: u32,
    pub prefix_len: u8,
}

/// An IPv4 address with a prefix length (at most 32).
#[derive(Debug, Clone, Copy, PartialEq, Eq)]
pub struct Ipv4Net {
    addr: u32,
    prefix_len: u8,
}

impl View for Ipv4Net {
    type V = Ipv4NetView;

    closed spec fn view(&self) -> Ipv4NetView {
        Ipv4NetView { addr: self.addr, prefix_len: self.prefix_len }
    }
}

impl Ipv4Net {
    #[verifier::type_invariant]
    spec fn prefix_in_range(self) -> bool {
        self.prefix_len <= 32
    }

    /// Creates a network from an address and a prefix length; fails when the
    /// prefix length is greater than 32.
    pub fn new(addr: u32, prefix_len: u8) -> (r: Result<Ipv4Net, PrefixLenError>)
        ensures
            prefix_len > 32 <==> r is Err,
            r matches Ok(n) ==> n@.addr == addr && n@.prefix_len == prefix_len,
    {
        if prefix_len > 32 {
            Err(PrefixLenError)
        } else {
            Ok(Ipv4Net { addr, prefix_len })
        }
    }

    /// Creates a network whose prefix length is known to be valid.
    pub fn new_assert(addr: u32, prefix_len: u8) -> (r: Ipv4Net)
        requires
            prefix_len <= 32,
        ensures
            r@.addr == addr,
            r@.prefix_len == prefix_len,
    {
        Ipv4Net { addr, prefix_len }
    }

    /// The address.
    pub fn addr(&self) -> (r: u32)
        ensures
            r == self@.addr,
    {
        self.addr
    }

    /// The prefix length.
    pub fn prefix_len(&self) -> (r: u8)
        ensures
            r == self@.prefix_len,
            r <= 32,
    {
        proof {
            use_type_invariant(self);
        }
        self.prefix_len
    }

    /// The number of addresses in the network's block.
    pub fn block_size(&self) -> (r: u64)
        ensures
            r == block_size(self@.prefix_len),
            1 <= r <= 0x1_0000_0000,
    {
        proof {
            use_type_invariant(self);
            vstd::arithmetic::power2::lemma2_to64();
            vstd::arithmetic::power2::lemma2_to64_rest();
            vstd::arithmetic::power2::lemma_pow2_pos((32 - self.prefix_len) as nat);
            if self.prefix_len > 0 {
                vstd::arithmetic::power2::lemma_pow2_strictly_increases(
                    (32 - self.prefix_len) as nat,
                    32,
                );
            }
        }
        if self.prefix_len == 0 {
            proof {
                assert(pow2(32) == 0x1_0000_0000) by {
                    vstd::arithmetic::power2::lemma2_to64_rest();
                }
            }
        }
        pow2_u64((32 - self.prefix_len) as u32)
    }

    /// The first address of the network (the address with its host bits cleared).
    pub fn network(&self) -> (r: u32)
        ensures
            r == network_of(self@.addr, self@.prefix_len),
    {
        proof {
            use_type_invariant(self);
            lemma_block_fits(self.addr, self.prefix_len);
        }
        let bs = self.block_size();
        let a = self.addr as u64;
        (a - a % bs) as u32
    }

    /// The last address of the network (the address with its host bits set).
    pub fn broadcast(&self) -> (r: u32)
        ensures
            r == broadcast_of(self@.addr, self@.prefix_len),
    {
        proof {
            use_type_invariant(self);
            lemma_block_fits(self.addr, self.prefix_len);
        }
        let bs = self.block_size();
        let a = self.addr as u64;
        (a - a % bs + (bs - 1)) as u32
    }
}

} // verus!
