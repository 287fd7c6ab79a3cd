//! The `.rawpkts` layout: a little-endian `i32` length and the AudioSpecificConfig,
//! then a length and an access unit, repeated.

use vstd::prelude::*;

verus! {

/// Largest packet a length field can announce.
pub const MAX_PACKET_LEN: usize = 0x7fff_ffff;

/// The unsigned value of four bytes, the first the least significant.
pub open spec fn le_u32(b: Seq<u8>) -> nat {
    b[0] as nat + 256 * (b[1] as nat) + 65536 * (b[2] as nat) + 16777216 * (b[3] as nat)
}

/// The four bytes of the `i32` length `len`, the least significant first.
pub open spec fn le_bytes(len: nat) -> Seq<u8> {
    seq![(len % 256) as u8, ((len / 256) % 256) as u8, ((len / 65536) % 256) as u8, (len / 16777216) as u8]
}

/// Why a stream does not split into packets.
#[derive(Clone, Copy, Debug, PartialEq, Eq, Structural)]
pub enum PacketError {
    /// Fewer than four bytes are left where a length stands.
    LengthCutShort,
    /// A length is negative.
    NegativeLength,
    /// A packet has fewer bytes than its length announces; the length.
    PacketCutShort(u32),
    /// The stream holds no packet, so no AudioSpecificConfig.
    NoConfig,
}

/// The packets of a stream, in order, or the first reason it does not split into
/// packets.
pub open spec fn packets_of(s: Seq<u8>) -> Result<Seq<Seq<u8>>, PacketError>
    decreases s.len(),
{
    if s.len() == 0 {
        Ok(Seq::empty())
    } else if s.len() < 4 {
        Err(PacketError::LengthCutShort)
    } else {
        let len = le_u32(s.subrange(0, 4));
        if len > MAX_PACKET_LEN {
            Err(PacketError::NegativeLength)
        } else if 4 + len > s.len() {
            Err(PacketError::PacketCutShort(len as u32))
        } else {
            match packets_of(s.subrange(4 + len as int, s.len() as int)) {
                Ok(rest) => Ok(seq![s.subrange(4, 4 + len as int)] + rest),
                Err(e) => Err(e),
            }
        }
    }
}

/// The stream of the packets `p`: each its length and its bytes.
pub open spec fn stream_of(p: Seq<Seq<u8>>) -> Seq<u8>
    decreases p.len(),
{
    if p.len() == 0 {
        Seq::empty()
    } else {
        le_bytes(p[0].len()) + p[0] + stream_of(p.drop_first())
    }
}

/// The packets of each vector.
pub open spec fn views_of(v: Seq<Vec<u8>>) -> Seq<Seq<u8>> {
    v.map_values(|p: Vec<u8>| p@)
}

/// Reading a length written as four bytes gives it back.
proof fn lemma_le_round_trip(len: nat)
    requires
        len <= MAX_PACKET_LEN,
    ensures
        le_u32(le_bytes(len)) == len,
{
    let b = le_bytes(len);
    assert(b[0] as nat == len % 256);
    assert(b[1] as nat == (len / 256) % 256);
    assert(b[2] as nat == (len / 65536) % 256);
    assert(b[3] as nat == len / 16777216);
    assert(len % 256 + 256 * ((len / 256) % 256) + 65536 * ((len / 65536) % 256) + 16777216 * (len
        / 16777216) == len) by (nonlinear_arith)
        requires
            len >= 0,
    ;
}

/// Reading the stream of some packets gives the packets back.
pub proof fn lemma_packets_round_trip(p: Seq<Seq<u8>>)
    requires
        forall|i: int| 0 <= i < p.len() ==> (#[trigger] p[i]).len() <= MAX_PACKET_LEN,
    ensures
        packets_of(stream_of(p)) == Ok::<Seq<Seq<u8>>, PacketError>(p),
    decreases p.len(),
{
    if p.len() > 0 {
        let s = stream_of(p);
        let len = p[0].len();
        lemma_packets_round_trip(p.drop_first());
        lemma_le_round_trip(len);
        assert(s.subrange(0, 4) =~= le_bytes(len));
        assert(s.subrange(4, 4 + len as int) =~= p[0]);
        assert(s.subrange(4 + len as int, s.len() as int) =~= stream_of(p.drop_first()));
        assert(seq![p[0]] + p.drop_first() =~= p);
    } else {
        assert(stream_of(p) =~= Seq::<u8>::empty());
        assert(p =~= Seq::<Seq<u8>>::empty());
    }
}

/// Splits a stream into its packets.
///
/// Returns the packets in order, or the first reason the stream does not split:
/// a length cut short, a negative length, or a packet cut short.
pub fn packets(stream: &[u8]) -> (r: Result<Vec<Vec<u8>>, PacketError>)
    ensures
        match (r, packets_of(stream@)) {
            (Ok(v), Ok(p)) => views_of(v@) == p,
            (Err(e), Err(f)) => e == f,
            _ => false,
        },
{
    let mut out: Vec<Vec<u8>> = Vec::new();
    let mut at: usize = 0;
    let n = stream.len();
    proof {
        assert(stream@.subrange(0, n as int) =~= stream@);
        assert(views_of(out@) =~= Seq::<Seq<u8>>::empty());
        match packets_of(stream@) {
            Ok(p) => {
                assert(views_of(out@) + p =~= p);
            },
            Err(_) => {},
        }
    }
    while at < n
        invariant
            at <= n == stream@.len(),
            packets_of(stream@) == match packets_of(stream@.subrange(at as int, n as int)) {
                Ok(rest) => Ok(views_of(out@) + rest),
                Err(e) => Err(e),
            },
        decreases n - at,
    {
        let ghost rest = stream@.subrange(at as int, n as int);
        if n - at < 4 {
            return Err(PacketError::LengthCutShort);
        }
        let len = stream[at] as u32 + 256 * stream[at + 1] as u32 + 65536 * stream[at + 2] as u32
            + 16777216 * stream[at + 3] as u32;
        proof {
            assert(rest.subrange(0, 4) =~= stream@.subrange(at as int, at + 4));
        }
        if len as usize > MAX_PACKET_LEN {
            return Err(PacketError::NegativeLength);
        }
        if len as usize > n - at - 4 {
            return Err(PacketError::PacketCutShort(len));
        }
        let len = len as usize;
        let mut packet: Vec<u8> = Vec::with_capacity(len);
        let mut k: usize = 0;
        while k < len
            invariant
                k <= len,
                at + 4 + len <= n == stream@.len(),
                packet@ =~= stream@.subrange(at + 4, at + 4 + k),
            decreases len - k,
        {
            packet.push(stream[at + 4 + k]);
            k += 1;
        }
        proof {
            assert(rest.subrange(4, 4 + len as int) =~= packet@);
            assert(rest.subrange(4 + len as int, rest.len() as int) =~= stream@.subrange(
                at + 4 + len,
                n as int,
            ));
            assert(views_of(out@.push(packet)) =~= views_of(out@) + seq![packet@]);
            if let Ok(r) = packets_of(stream@.subrange(at + 4 + len, n as int)) {
                assert(views_of(out@) + (seq![packet@] + r) =~= views_of(out@) + seq![packet@]
                    + r);
            }
        }
        out.push(packet);
        at = at + 4 + len;
    }
    proof {
        assert(stream@.subrange(n as int, n as int) =~= Seq::<u8>::empty());
        assert(views_of(out@) + Seq::<Seq<u8>>::empty() =~= views_of(out@));
    }
    Ok(out)
}

/// Splits a stream into the AudioSpecificConfig, its first packet, and the access
/// units.
///
/// Returns why the stream does not split into packets, or `NoConfig` where it has
/// none.
pub fn parse(stream: &[u8]) -> (r: Result<(Vec<u8>, Vec<Vec<u8>>), PacketError>)
    ensures
        match (r, packets_of(stream@)) {
            (Ok((config, units)), Ok(p)) => p.len() > 0 && config@ == p[0] && views_of(units@)
                == p.drop_first(),
            (Err(e), Ok(p)) => p.len() == 0 && e == PacketError::NoConfig,
            (Err(e), Err(f)) => e == f,
            _ => false,
        },
{
    match packets(stream) {
        Err(e) => Err(e),
        Ok(mut packets) => {
            if packets.len() == 0 {
                return Err(PacketError::NoConfig);
            }
            let ghost p = views_of(packets@);
            let config = packets.remove(0);
            proof {
                assert(views_of(packets@) =~= p.drop_first());
            }
            Ok((config, packets))
        },
    }
}

/// Appends the four bytes of the length `len`, the least significant first.
fn push_len(out: &mut Vec<u8>, len: usize)
    requires
        len <= MAX_PACKET_LEN,
    ensures
        final(out)@ == old(out)@ + le_bytes(len as nat),
{
    out.push((len % 256) as u8);
    out.push(((len / 256) % 256) as u8);
    out.push(((len / 65536) % 256) as u8);
    out.push((len / 16777216) as u8);
    assert(final(out)@ =~= old(out)@ + le_bytes(len as nat));
}

/// The stream of an AudioSpecificConfig and access units: each packet its length
/// and its bytes, the config first.
pub fn stream(config: &[u8], units: &[Vec<u8>]) -> (s: Vec<u8>)
    requires
        config@.len() <= MAX_PACKET_LEN,
        forall|i: int| 0 <= i < units@.len() ==> (#[trigger] units@[i])@.len() <= MAX_PACKET_LEN,
    ensures
        s@ == stream_of(seq![config@] + views_of(units@)),
{
    let mut out: Vec<u8> = Vec::new();
    push_len(&mut out, config.len());
    let mut k: usize = 0;
    while k < config.len()
        invariant
            k <= config@.len(),
            out@ == le_bytes(config@.len() as nat) + config@.subrange(0, k as int),
        decreases config@.len() - k,
    {
        out.push(config[k]);
        k += 1;
        assert(out@ =~= le_bytes(config@.len() as nat) + config@.subrange(0, k as int));
    }
    assert(config@.subrange(0, config@.len() as int) =~= config@);
    let ghost all = seq![config@] + views_of(units@);
    let mut i: usize = 0;
    proof {
        assert(all[0] == config@);
        assert(all.drop_first() =~= views_of(units@));
        assert(views_of(units@).subrange(0, units@.len() as int) =~= views_of(units@));
        assert(stream_of(all) == le_bytes(config@.len() as nat) + config@ + stream_of(all.drop_first()));
        assert(stream_of(all) =~= out@ + stream_of(views_of(units@)));
    }
    while i < units.len()
        invariant
            i <= units@.len(),
            all == seq![config@] + views_of(units@),
            forall|j: int| 0 <= j < units@.len() ==> (#[trigger] units@[j])@.len() <= MAX_PACKET_LEN,
            stream_of(all) == out@ + stream_of(views_of(units@).subrange(i as int, units@.len() as int)),
        decreases units@.len() - i,
    {
        let unit = &units[i];
        let ghost tail = views_of(units@).subrange(i as int, units@.len() as int);
        let ghost before = out@;
        push_len(&mut out, unit.len());
        let mut k: usize = 0;
        while k < unit.len()
            invariant
                k <= unit@.len(),
                out@ == before + le_bytes(unit@.len() as nat) + unit@.subrange(0, k as int),
            decreases unit@.len() - k,
        {
            out.push(unit[k]);
            k += 1;
            assert(out@ =~= before + le_bytes(unit@.len() as nat) + unit@.subrange(0, k as int));
        }
        proof {
            assert(unit@.subrange(0, unit@.len() as int) =~= unit@);
            assert(tail[0] == unit@);
            assert(tail.drop_first() =~= views_of(units@).subrange(i + 1, units@.len() as int));
        }
        i += 1;
    }
    proof {
        assert(views_of(units@).subrange(units@.len() as int, units@.len() as int) =~= Seq::<Seq<u8>>::empty());
        assert(out@ + Seq::<u8>::empty() =~= out@);
        assert(all.drop_first() =~= views_of(units@));
    }
    out
}

} // verus!
