//! IP addresses, as the application writes them and as the engine keeps
//! them.
//!
//! The application's form is a sequence of octets in network order. The
//! engine's form is one 32-bit word for IPv4 and four for IPv6, each word
//! holding four consecutive octets as they lie in memory.

use crate::endian::{bytes_of, read_word, word_of, write_word, Endian};
use crate::endian::{lemma_bytes_of_word, lemma_word_of_bytes};
use crate::fault::Fault;
use vstd::prelude::*;

verus! {

/// An IP address by its octets, in network order.
#[derive(Clone, Copy, Debug, PartialEq, Eq)]
pub enum IpAddress {
    V4([u8; 4]),
    V6([u8; 16]),
}

/// An IP address and a port.
#[derive(Clone, Copy, Debug, PartialEq, Eq)]
pub struct SocketAddress {
    pub ip: IpAddress,
    pub port: u16,
}

/// The engine's record of an IPv4 address.
#[derive(Clone, Copy, Debug, PartialEq, Eq)]
pub struct Ip4Addr {
    pub addr: u32,
}

/// The engine's record of an IPv6 address.
#[derive(Clone, Copy, Debug, PartialEq, Eq)]
pub struct Ip6Addr {
    pub addr: [u32; 4],
    pub zone: u8,
}

/// The engine's record of an address of either family.
#[derive(Clone, Copy, Debug, PartialEq, Eq)]
pub enum EngineAddr {
    V4(Ip4Addr),
    V6(Ip6Addr),
    /// The wildcard that stands for the unspecified address of both
    /// families.
    Any,
    /// A record whose family tag the adapter does not know.
    Unknown(u8),
}

/// The octets of the IPv4 address that the engine keeps as `word`.
pub open spec fn ip4_octets(word: u32, order: Endian) -> Seq<u8> {
    bytes_of(order, word)
}

/// The word as which the engine keeps the IPv4 address with these octets.
pub open spec fn ip4_word(octets: Seq<u8>, order: Endian) -> u32 {
    word_of(order, octets)
}

/// The words as which the engine keeps the IPv6 address with these octets.
pub open spec fn ip6_words(octets: Seq<u8>, order: Endian) -> Seq<u32> {
    seq![
        word_of(order, octets.subrange(0, 4)),
        word_of(order, octets.subrange(4, 8)),
        word_of(order, octets.subrange(8, 12)),
        word_of(order, octets.subrange(12, 16)),
    ]
}

/// The octets of the IPv6 address that the engine keeps as `words`.
pub open spec fn ip6_octets(words: Seq<u32>, order: Endian) -> Seq<u8> {
    bytes_of(order, words[0]) + bytes_of(order, words[1]) + bytes_of(order, words[2])
        + bytes_of(order, words[3])
}

/// Every octet is zero.
pub open spec fn all_zero(octets: Seq<u8>) -> bool {
    forall|i: int| 0 <= i < octets.len() ==> octets[i] == 0
}

impl IpAddress {
    /// The octets, whatever the family.
    pub open spec fn octets(self) -> Seq<u8> {
        match self {
            IpAddress::V4(o) => o@,
            IpAddress::V6(o) => o@,
        }
    }

    /// The address is `0.0.0.0` or `::`.
    pub open spec fn unspecified(self) -> bool {
        all_zero(self.octets())
    }

    /// The engine's record of this address.
    pub open spec fn engine_form(self, order: Endian) -> EngineAddr {
        if self.unspecified() {
            EngineAddr::Any
        } else {
            match self {
                IpAddress::V4(o) => EngineAddr::V4(Ip4Addr { addr: ip4_word(o@, order) }),
                IpAddress::V6(o) => EngineAddr::V6(
                    Ip6Addr { addr: words_array(ip6_words(o@, order)), zone: 0 },
                ),
            }
        }
    }

    /// Tells whether the address is `0.0.0.0` or `::`.
    pub fn is_unspecified(&self) -> (yes: bool)
        ensures
            yes == self.unspecified(),
    {
        match self {
            IpAddress::V4(o) => {
                let yes = o[0] == 0 && o[1] == 0 && o[2] == 0 && o[3] == 0;
                proof {
                    if yes {
                        assert forall|i: int| 0 <= i < o@.len() implies o@[i] == 0 by {
                            if i == 0 {
                            } else if i == 1 {
                            } else if i == 2 {
                            } else {
                                assert(i == 3);
                            }
                        }
                    }
                }
                yes
            },
            IpAddress::V6(o) => {
                let mut i: usize = 0;
                while i < 16
                    invariant
                        i <= 16,
                        self.octets() == o@,
                        forall|j: int| 0 <= j < i ==> o@[j] == 0,
                    decreases 16 - i,
                {
                    if o[i] != 0 {
                        assert(o@[i as int] != 0);
                        return false;
                    }
                    i += 1;
                }
                true
            },
        }
    }

    /// Converts the address to the engine's record of it. The unspecified
    /// address of either family becomes the engine's wildcard.
    pub fn to_engine(&self, order: Endian) -> (record: EngineAddr)
        ensures
            record == self.engine_form(order),
    {
        if self.is_unspecified() {
            EngineAddr::Any
        } else {
            match self {
                IpAddress::V4(o) => EngineAddr::V4(ip4_to_engine(*o, order)),
                IpAddress::V6(o) => EngineAddr::V6(ip6_to_engine(*o, order)),
            }
        }
    }
}

/// The array that holds exactly the four given words.
pub open spec fn words_array(words: Seq<u32>) -> [u32; 4] {
    choose|a: [u32; 4]| a@ == words
}

/// The array that holds exactly the given octets.
pub open spec fn octets_array<const N: usize>(octets: Seq<u8>) -> [u8; N] {
    choose|a: [u8; N]| a@ == octets
}

impl EngineAddr {
    /// The address that the record stands for, where it is one of a family
    /// that the adapter knows.
    pub open spec fn address(self, order: Endian) -> Result<IpAddress, Fault> {
        match self {
            EngineAddr::V4(a) => Ok(IpAddress::V4(octets_array(ip4_octets(a.addr, order)))),
            EngineAddr::V6(a) => Ok(IpAddress::V6(octets_array(ip6_octets(a.addr@, order)))),
            _ => Err(Fault::InvalidAddress),
        }
    }

    /// The record of the unspecified address.
    pub fn unspecified() -> (record: EngineAddr)
        ensures
            record == EngineAddr::Any,
    {
        EngineAddr::Any
    }

    /// Converts the engine's record to an address. A record that is neither
    /// IPv4 nor IPv6 is refused.
    pub fn to_address(&self, order: Endian) -> (r: Result<IpAddress, Fault>)
        ensures
            r == self.address(order),
    {
        match self {
            EngineAddr::V4(a) => Ok(IpAddress::V4(ip4_from_engine(*a, order))),
            EngineAddr::V6(a) => Ok(IpAddress::V6(ip6_from_engine(*a, order))),
            _ => Err(Fault::InvalidAddress),
        }
    }
}

/// Converts the octets of an IPv4 address to the engine's record.
pub fn ip4_to_engine(octets: [u8; 4], order: Endian) -> (record: Ip4Addr)
    ensures
        record.addr == ip4_word(octets@, order),
{
    Ip4Addr { addr: read_word(order, octets) }
}

/// Converts the engine's record of an IPv4 address to its octets.
pub fn ip4_from_engine(record: Ip4Addr, order: Endian) -> (octets: [u8; 4])
    ensures
        octets@ == ip4_octets(record.addr, order),
        octets == octets_array::<4>(ip4_octets(record.addr, order)),
{
    let octets = write_word(order, record.addr);
    proof {
        lemma_array_by_view(octets);
    }
    octets
}

/// The record that the engine's headers give for an IPv4 address carried
/// in an IPv6 record: two zero words, a word of all ones, and the address.
pub fn ip4_in_ip6(octets: [u8; 4], order: Endian) -> (record: Ip6Addr)
    ensures
        record.zone == 0,
        record.addr@ == seq![0u32, 0u32, 0xffff_ffffu32, ip4_word(octets@, order)],
{
    let record = Ip6Addr { addr: [0, 0, 0xffff_ffff, read_word(order, octets)], zone: 0 };
    assert(record.addr@ =~= seq![0u32, 0u32, 0xffff_ffffu32, ip4_word(octets@, order)]);
    record
}

/// Converts the octets of an IPv6 address to the engine's record, in the
/// default zone.
pub fn ip6_to_engine(octets: [u8; 16], order: Endian) -> (record: Ip6Addr)
    ensures
        record.zone == 0,
        record.addr@ == ip6_words(octets@, order),
        record.addr == words_array(ip6_words(octets@, order)),
{
    let b0: [u8; 4] = [octets[0], octets[1], octets[2], octets[3]];
    let b1: [u8; 4] = [octets[4], octets[5], octets[6], octets[7]];
    let b2: [u8; 4] = [octets[8], octets[9], octets[10], octets[11]];
    let b3: [u8; 4] = [octets[12], octets[13], octets[14], octets[15]];
    proof {
        assert(b0@ =~= octets@.subrange(0, 4));
        assert(b1@ =~= octets@.subrange(4, 8));
        assert(b2@ =~= octets@.subrange(8, 12));
        assert(b3@ =~= octets@.subrange(12, 16));
    }
    let addr: [u32; 4] = [
        read_word(order, b0),
        read_word(order, b1),
        read_word(order, b2),
        read_word(order, b3),
    ];
    proof {
        assert(addr@ =~= ip6_words(octets@, order));
        lemma_array_by_view(addr);
    }
    Ip6Addr { addr, zone: 0 }
}

/// Converts the engine's record of an IPv6 address to its octets.
pub fn ip6_from_engine(record: Ip6Addr, order: Endian) -> (octets: [u8; 16])
    ensures
        octets@ == ip6_octets(record.addr@, order),
        octets == octets_array::<16>(ip6_octets(record.addr@, order)),
{
    let b0 = write_word(order, record.addr[0]);
    let b1 = write_word(order, record.addr[1]);
    let b2 = write_word(order, record.addr[2]);
    let b3 = write_word(order, record.addr[3]);
    proof {
        lemma_word_of_bytes(order, record.addr[0]);
        lemma_word_of_bytes(order, record.addr[1]);
        lemma_word_of_bytes(order, record.addr[2]);
        lemma_word_of_bytes(order, record.addr[3]);
    }
    let octets: [u8; 16] = [
        b0[0],
        b0[1],
        b0[2],
        b0[3],
        b1[0],
        b1[1],
        b1[2],
        b1[3],
        b2[0],
        b2[1],
        b2[2],
        b2[3],
        b3[0],
        b3[1],
        b3[2],
        b3[3],
    ];
    proof {
        assert(octets@ =~= ip6_octets(record.addr@, order));
        lemma_array_by_view(octets);
    }
    octets
}

/// An array is the one array with its contents.
pub proof fn lemma_array_by_view<T, const N: usize>(a: [T; N])
    ensures
        a == (choose|b: [T; N]| b@ == a@),
{
    let b = choose|b: [T; N]| b@ == a@;
    assert(b@ == a@);
    assert(b@ =~= a@);
    assert(b =~= a);
}

/// An IPv4 address that went to the engine comes back unchanged.
pub proof fn lemma_ip4_round_trip(octets: Seq<u8>, order: Endian)
    requires
        octets.len() == 4,
    ensures
        ip4_octets(ip4_word(octets, order), order) == octets,
{
    lemma_bytes_of_word(order, octets);
}

/// An IPv6 address that went to the engine comes back unchanged.
pub proof fn lemma_ip6_round_trip(octets: Seq<u8>, order: Endian)
    requires
        octets.len() == 16,
    ensures
        ip6_octets(ip6_words(octets, order), order) == octets,
{
    lemma_bytes_of_word(order, octets.subrange(0, 4));
    lemma_bytes_of_word(order, octets.subrange(4, 8));
    lemma_bytes_of_word(order, octets.subrange(8, 12));
    lemma_bytes_of_word(order, octets.subrange(12, 16));
    assert(ip6_octets(ip6_words(octets, order), order) =~= octets);
}

/// An address other than the unspecified one that is converted to the
/// engine's record and back is the address it was.
pub proof fn lemma_address_round_trip(ip: IpAddress, order: Endian)
    requires
        !ip.unspecified(),
    ensures
        ip.engine_form(order).address(order) == Ok::<IpAddress, Fault>(ip),
{
    match ip {
        IpAddress::V4(o) => {
            lemma_ip4_round_trip(o@, order);
            lemma_array_by_view(o);
        },
        IpAddress::V6(o) => {
            lemma_ip6_round_trip(o@, order);
            lemma_words_array(ip6_words(o@, order));
            lemma_array_by_view(o);
        },
    }
}

/// Four words fill an array.
pub proof fn lemma_words_array(words: Seq<u32>)
    requires
        words.len() == 4,
    ensures
        words_array(words)@ == words,
{
    let a: [u32; 4] = [words[0], words[1], words[2], words[3]];
    assert(a@ =~= words);
}

} // verus!
