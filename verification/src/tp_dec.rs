//! MPEG transport format decoder
//!
//! Raw access units are the one transport: the AudioSpecificConfig arrives out of
//! band, and every access unit is handed over whole.

pub mod asc;
pub mod constants;
pub mod error_codes;

pub use asc::AudioSpecificConfig;
pub use constants::{MAX_CONF_SIZE, TRANSPORTDEC_INBUF_SIZE};
pub use error_codes::TpDecoderError;

use vstd::prelude::*;
use crate::common::bitstream::{mod8, Bitstream, BitstreamView, Mode};
use asc::audio_specific_config::{spec_asc_parse, AscView};

verus! {

/// Reconfiguration states
#[derive(Debug, PartialEq, Eq, Copy, Clone, Structural)]
pub enum ReconfigState {
    /// The decoder is asked whether the config differs from the one it runs with.
    DetCfgChange,
    /// The decoder is asked to allocate for the config and to take it over.
    AllocMem,
}

impl ReconfigState {
    /// The order a config is handed to the decoder in.
    pub fn all() -> (states: [ReconfigState; 2])
        ensures
            states@ == seq![ReconfigState::DetCfgChange, ReconfigState::AllocMem],
    {
        [ReconfigState::DetCfgChange, ReconfigState::AllocMem]
    }
}

/// The bitstream that `conf` is parsed from: its bytes at the start of a buffer of
/// `MAX_CONF_SIZE` zero bytes, all of its bits to read.
pub open spec fn config_bitstream(conf: Seq<u8>) -> BitstreamView {
    BitstreamView {
        buf: conf + Seq::new((MAX_CONF_SIZE - conf.len()) as nat, |i: int| 0u8),
        pos: 0,
        valid: (8 * conf.len()) as int,
        fill: 0,
        mode: Mode::Reader,
    }
}

/// What parsing `conf` as an AudioSpecificConfig gives: the config, or the error that
/// refused it.
pub open spec fn spec_parse_config(conf: Seq<u8>) -> Result<AscView, TpDecoderError> {
    if conf.len() > MAX_CONF_SIZE {
        Err(TpDecoderError::UnsupportedFormat)
    } else {
        let (r, asc, _) = spec_asc_parse(config_bitstream(conf));
        match r {
            Ok(()) => Ok(asc),
            Err(e) => Err(e),
        }
    }
}

/// Transport decoder structure.
#[derive(Debug)]
pub struct TransportDec {
    /// Bitstream.
    pub bs: Bitstream,
    /// Indicates valid config and successful decoder initialisation.
    is_config_found: bool,
}

impl TransportDec {
    /// The bitstream that holds the access unit.
    pub closed spec fn stream(&self) -> Bitstream {
        self.bs
    }

    /// What the bitstream holds.
    pub open spec fn bits(&self) -> BitstreamView {
        self.stream()@
    }

    pub open spec fn wf(&self) -> bool {
        &&& self.stream().wf()
        &&& self.bits().buf.len() == TRANSPORTDEC_INBUF_SIZE
    }

    /// Whether the decoder took a config over.
    pub closed spec fn config_found(&self) -> bool {
        self.is_config_found
    }

    /// What `set_config_found` makes of `before`: the config is found, the bitstream
    /// is left.
    pub open spec fn set_config_found_outcome(before: TransportDec, after: TransportDec) -> bool {
        &&& after.config_found()
        &&& after.stream() == before.stream()
    }

    /// What `fill_data` makes of `before` with the last `bytes_valid` bytes of
    /// `buffer`, and what it returns: the buffer emptied and as many of the bytes fed
    /// in as fit, the config flag left.
    pub open spec fn fill_data_outcome(
        before: TransportDec,
        buffer: Seq<u8>,
        bytes_valid: nat,
        after: TransportDec,
        r: Result<usize, (usize, TpDecoderError)>,
    ) -> bool {
        let n = if bytes_valid > TRANSPORTDEC_INBUF_SIZE {
            TRANSPORTDEC_INBUF_SIZE as int
        } else {
            bytes_valid as int
        };
        let start = buffer.len() - bytes_valid;
        &&& after.config_found() == before.config_found()
        &&& after.bits() == (BitstreamView { pos: 0, valid: 0, fill: 0, ..before.bits() }).fed(
            buffer.subrange(start, start + n),
        )
        &&& r == if bytes_valid > TRANSPORTDEC_INBUF_SIZE {
            Err::<usize, (usize, TpDecoderError)>(
                ((bytes_valid - TRANSPORTDEC_INBUF_SIZE) as usize, TpDecoderError::TooManyBits),
            )
        } else {
            Ok(0)
        }
    }

    /// What `reset` makes of `before`: nothing left to read, the config flag left.
    pub open spec fn reset_outcome(before: TransportDec, after: TransportDec) -> bool {
        &&& after.config_found() == before.config_found()
        &&& after.bits() == (BitstreamView { pos: 0, valid: 0, fill: 0, ..before.bits() })
    }

    /// One call of `fill_data`, `reset` or `set_config_found` from `before` to `after`.
    pub open spec fn step(before: TransportDec, after: TransportDec) -> bool {
        ||| exists|buffer: Seq<u8>, bytes_valid: nat, r: Result<usize, (usize, TpDecoderError)>|
            Self::fill_data_outcome(before, buffer, bytes_valid, after, r)
        ||| Self::reset_outcome(before, after)
        ||| Self::set_config_found_outcome(before, after)
    }

    /// What `read_access_unit` gives on `t`.
    pub open spec fn access_unit_result(t: TransportDec) -> Result<(), TpDecoderError> {
        if t.bits().valid <= 0 {
            Err(TpDecoderError::NotEnoughBits)
        } else if !t.config_found() {
            Err(TpDecoderError::UnknownError)
        } else {
            Ok(())
        }
    }

    /// Returns new instance of `TransportDec`.
    pub fn new() -> (tp: TransportDec)
        ensures
            tp.wf(),
            !tp.config_found(),
            tp.bits().valid == 0,
            tp.bits().pos == 0,
            tp.bits().fill == 0,
            tp.bits().buf == Seq::new(TRANSPORTDEC_INBUF_SIZE as nat, |i: int| 0u8),
    {
        TransportDec {
            bs: Bitstream::new(TRANSPORTDEC_INBUF_SIZE, Mode::Reader),
            is_config_found: false,
        }
    }

    /// Parses a binary coded AudioSpecificConfig.
    ///
    /// Returns the `AudioSpecificConfig`, or the `TpDecoderError` that refused it.
    pub fn parse_config(&self, conf: &[u8]) -> (r: Result<AudioSpecificConfig, TpDecoderError>)
        ensures
            match (r, spec_parse_config(conf@)) {
                (Ok(asc), Ok(a)) => asc@ == a,
                (Err(e), Err(f)) => e == f,
                _ => false,
            },
    {
        if conf.len() > MAX_CONF_SIZE {
            return Err(TpDecoderError::UnsupportedFormat);
        }

        let mut bs = Bitstream::new(MAX_CONF_SIZE, Mode::Reader);
        bs.init(conf, 8 * conf.len());
        proof {
            assert(Seq::new(MAX_CONF_SIZE as nat, |i: int| 0u8).subrange(conf@.len() as int, MAX_CONF_SIZE as int)
                =~= Seq::new((MAX_CONF_SIZE - conf@.len()) as nat, |i: int| 0u8));
            assert(bs@ == config_bitstream(conf@));
        }

        let mut asc = AudioSpecificConfig::new();
        match asc.parse(&mut bs) {
            Ok(()) => Ok(asc),
            Err(e) => Err(e),
        }
    }

    /// Notes that the decoder took a config over, which is what lets access units in.
    pub fn set_config_found(&mut self)
        ensures
            Self::set_config_found_outcome(*old(self), *final(self)),
    {
        self.is_config_found = true;
    }

    /// Fills the bitstream buffer with one access unit: the last `bytes_valid` bytes
    /// of `buffer`.
    ///
    /// Returns the number of bytes left over, which is always zero, or the number of
    /// bytes that did not fit.
    pub fn fill_data(&mut self, buffer: &[u8], bytes_valid: usize) -> (r: Result<
        usize,
        (usize, TpDecoderError),
    >)
        requires
            old(self).wf(),
            bytes_valid <= buffer@.len(),
        ensures
            final(self).wf(),
            Self::fill_data_outcome(*old(self), buffer@, bytes_valid as nat, *final(self), r),
    {
        self.bs.reset();
        let valid_bytes = self.bs.feed(buffer, bytes_valid);
        if valid_bytes != 0 {
            return Err((valid_bytes, TpDecoderError::TooManyBits));
        }
        Ok(valid_bytes)
    }

    /// Takes the access unit in the buffer as the next one to decode.
    pub fn read_access_unit(&mut self) -> (r: Result<(), TpDecoderError>)
        ensures
            *final(self) == *old(self),
            r == Self::access_unit_result(*old(self)),
    {
        if self.bs.valid_bits() <= 0 {
            return Err(TpDecoderError::NotEnoughBits);
        }

        if !self.is_config_found {
            // Decoder needs to be configured with out of band config.
            return Err(TpDecoderError::UnknownError);
        }

        Ok(())
    }

    /// Returns the number of bits left in the access unit, which is the whole buffer.
    pub fn remaining_au_bits(&mut self) -> (bits: isize)
        ensures
            *final(self) == *old(self),
            bits == old(self).bits().valid,
    {
        self.bs.valid_bits()
    }

    /// Returns mutable reference of the `Bitstream` data.
    pub fn bs_mut(&mut self) -> (bs: &mut Bitstream)
        ensures
            *bs == old(self).stream(),
            final(self).stream() == *final(bs),
            final(self).config_found() == old(self).config_found(),
    {
        &mut self.bs
    }

    /// Discards the buffered access unit.
    pub fn reset(&mut self)
        requires
            old(self).wf(),
        ensures
            final(self).wf(),
            Self::reset_outcome(*old(self), *final(self)),
    {
        self.bs.reset();
    }

    /// Returns the number of trailing bits that need to be consumed to finalize the AU
    /// parsing: those up to the next byte boundary counted from `au_start_anchor`, the
    /// number of valid bits at the beginning of the AU.
    pub fn trailing_bits(&mut self, au_start_anchor: isize) -> (bits: isize)
        requires
            old(self).wf(),
            isize::MIN <= old(self).bits().valid - au_start_anchor <= isize::MAX,
        ensures
            *final(self) == *old(self),
            bits == (old(self).bits().valid - au_start_anchor) % 8,
            0 <= bits < 8,
    {
        mod8(self.bs.valid_bits() - au_start_anchor)
    }
}

/// A transport decoder is its bitstream and whether a config was taken over.
pub proof fn lemma_transport_ext_equal(a: TransportDec, b: TransportDec)
    requires
        a.stream() == b.stream(),
        a.config_found() == b.config_found(),
    ensures
        a == b,
{
}

/// Once a config was taken over, it stays found through any number of fills,
/// resets and further takings-over: from then on an access unit is taken exactly
/// when bits are left to read, and refused as not enough bits otherwise.
pub proof fn lemma_config_found_lets_access_units_in(t: TransportDec, s: Seq<TransportDec>)
    requires
        s.len() > 0,
        TransportDec::set_config_found_outcome(t, s[0]),
        forall|i: int| 0 <= i < s.len() - 1 ==> #[trigger] TransportDec::step(s[i], s[i + 1]),
    ensures
        forall|i: int|
            0 <= i < s.len() ==> (#[trigger] s[i]).config_found() && TransportDec::access_unit_result(
                s[i],
            ) == if s[i].bits().valid > 0 {
                Ok::<(), TpDecoderError>(())
            } else {
                Err(TpDecoderError::NotEnoughBits)
            },
    decreases s.len(),
{
    if s.len() > 1 {
        let p = s.drop_last();
        assert forall|i: int| 0 <= i < p.len() - 1 implies #[trigger] TransportDec::step(p[i], p[i + 1]) by {
            assert(TransportDec::step(s[i], s[i + 1]));
        }
        lemma_config_found_lets_access_units_in(t, p);
        let k = s.len() - 2;
        assert(p[k] == s[k]);
        assert(TransportDec::step(s[k], s[k + 1]));
        assert forall|i: int| 0 <= i < s.len() implies (#[trigger] s[i]).config_found() by {
            if i < s.len() - 1 {
                assert(p[i] == s[i]);
            }
        }
    }
}

/// Taking a config over when one was found changes nothing.
pub proof fn lemma_set_config_found_again(t: TransportDec, after: TransportDec)
    requires
        t.config_found(),
        TransportDec::set_config_found_outcome(t, after),
    ensures
        after == t,
{
    lemma_transport_ext_equal(after, t);
}

impl Default for TransportDec {
    fn default() -> (tp: TransportDec)
        ensures
            tp.wf(),
            !tp.config_found(),
            tp.bits().valid == 0,
            tp.bits().pos == 0,
            tp.bits().fill == 0,
            tp.bits().buf == Seq::new(TRANSPORTDEC_INBUF_SIZE as nat, |i: int| 0u8),
    {
        TransportDec::new()
    }
}

} // verus!
