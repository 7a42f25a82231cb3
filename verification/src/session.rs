//! One recording's lifecycle: negotiate a configuration, open an output
//! sink under a collision-free name, stream batches of quantized samples
//! into it, stop on the interrupt request, and finalize the file bytes
//! exactly once.

use vstd::prelude::*;
use crate::config::{SampleFormat, StreamConfig, WavFormat};
use crate::errors::RecError;
use crate::path::{is_fresh_name, make_unique_filename, name_views};
use crate::wav::{
    lemma_wav_file_valid, valid_wav, wav_file, wav_file_bytes, wav_sample_count, MAX_DATA_BYTES,
};

verus! {

/// The lifecycle states of a capture session, in order. `Finalized` is
/// terminal.
#[derive(Clone, Copy, Debug, PartialEq, Eq, Structural)]
pub enum Phase {
    Idle,
    Negotiated,
    Streaming,
    Stopping,
    Finalized,
}

/// The owned, append-only destination of quantized samples.
pub struct SampleSink {
    pub format: WavFormat,
    pub samples: Vec<i16>,
}

impl SampleSink {
    /// The stored data always fits the container's 32-bit size fields.
    pub open spec fn wf(self) -> bool {
        &&& self.format.wf()
        &&& 2 * self.samples@.len() <= MAX_DATA_BYTES
    }

    /// An empty sink for the negotiated format.
    pub fn new(format: WavFormat) -> (r: Self)
        requires
            format.wf(),
        ensures
            r.wf(),
            r.format == format,
            r.samples@.len() == 0,
    {
        SampleSink { format, samples: Vec::new() }
    }

    /// Appends a whole batch in order, or discards it entirely when it
    /// would overflow the container; never a partial write.
    pub fn append(&mut self, batch: &Vec<i16>) -> (accepted: bool)
        requires
            old(self).wf(),
        ensures
            final(self).wf(),
            final(self).format == old(self).format,
            accepted == (2 * (old(self).samples@.len() + batch@.len()) <= MAX_DATA_BYTES),
            accepted ==> final(self).samples@ == old(self).samples@ + batch@,
            !accepted ==> final(self).samples@ == old(self).samples@,
    {
        let cur: u128 = self.samples.len() as u128;
        let add: u128 = batch.len() as u128;
        if 2 * (cur + add) <= MAX_DATA_BYTES as u128 {
            self.samples.extend_from_slice(batch.as_slice());
            true
        } else {
            false
        }
    }
}

/// One recording, from idle to finalized file bytes.
pub struct CaptureSession {
    pub phase: Phase,
    pub output_path: Option<String>,
    pub format: Option<WavFormat>,
    pub sink: Option<SampleSink>,
}

impl CaptureSession {
    /// The state invariant: the sink, when present, is well formed and
    /// carries the negotiated format; nothing exists before its phase.
    pub open spec fn wf(self) -> bool {
        &&& match self.sink {
            Option::Some(s) => s.wf() && self.format == Option::Some(s.format),
            Option::None => true,
        }
        &&& match self.format {
            Option::Some(f) => f.wf(),
            Option::None => true,
        }
        &&& self.phase == Phase::Idle ==> self.sink is None && self.format is None
        &&& self.phase == Phase::Negotiated ==> self.format is Some
        &&& self.phase == Phase::Streaming ==> self.sink is Some
        &&& self.phase == Phase::Stopping ==> self.format is Some
        &&& self.phase == Phase::Finalized ==> self.sink is None
    }

    /// A fresh, idle session.
    pub fn new() -> (r: Self)
        ensures
            r.wf(),
            r.phase == Phase::Idle,
            r.output_path is None,
            r.format is None,
            r.sink is None,
    {
        CaptureSession { phase: Phase::Idle, output_path: None, format: None, sink: None }
    }

    /// Accepts the device's default input configuration when its sample
    /// format is 32-bit float; any other format is rejected with
    /// `UnsupportedFormat` and the session is left untouched.
    ///
    /// The bounds on the configuration are the container's field widths;
    /// the caller checks them before calling.
    pub fn negotiate(&mut self, cfg: &StreamConfig) -> (r: Result<WavFormat, RecError>)
        requires
            old(self).wf(),
            old(self).phase == Phase::Idle,
            1 <= cfg.channels,
            2 * cfg.channels < 65536,
            (cfg.sample_rate as nat) * (cfg.channels as nat) * 2 < 4294967296,
        ensures
            final(self).wf(),
            final(self).sink is None,
            final(self).output_path == old(self).output_path,
            match r {
                Result::Ok(f) => {
                    &&& cfg.sample_format == SampleFormat::F32
                    &&& f.channels == cfg.channels
                    &&& f.sample_rate == cfg.sample_rate
                    &&& final(self).phase == Phase::Negotiated
                    &&& final(self).format == Option::Some(f)
                },
                Result::Err(e) => {
                    &&& cfg.sample_format != SampleFormat::F32
                    &&& e == RecError::UnsupportedFormat
                    &&& *final(self) == *old(self)
                },
            },
    {
        if cfg.sample_format == SampleFormat::F32 {
            let f = WavFormat { channels: cfg.channels, sample_rate: cfg.sample_rate };
            self.phase = Phase::Negotiated;
            self.format = Some(f);
            Ok(f)
        } else {
            Err(RecError::UnsupportedFormat)
        }
    }

    /// Opens the output sink under a name that collides with no existing
    /// one, disambiguating the requested path if it is taken, and
    /// remembers that name. Returns the name actually used; the caller
    /// creates the file there.
    pub fn open_output(&mut self, requested: &str, existing: &Vec<String>) -> (r: String)
        requires
            old(self).wf(),
            old(self).phase == Phase::Negotiated,
            old(self).sink is None,
        ensures
            final(self).wf(),
            is_fresh_name(requested@, name_views(existing@), r@),
            !name_views(existing@).contains(r@),
            final(self).phase == Phase::Negotiated,
            final(self).format == old(self).format,
            match final(self).output_path {
                Option::Some(p) => p@ == r@,
                Option::None => false,
            },
            match final(self).sink {
                Option::Some(s) => s.format == old(self).format->Some_0 && s.samples@.len() == 0,
                Option::None => false,
            },
    {
        let unique = make_unique_filename(requested, existing);
        let f = self.format.unwrap();
        self.sink = Some(SampleSink::new(f));
        self.output_path = Some(unique.clone());
        unique
    }

    /// Starts streaming: from here on the audio thread hands batches to
    /// `accept_samples`.
    pub fn start(&mut self)
        requires
            old(self).wf(),
            old(self).phase == Phase::Negotiated,
            old(self).sink is Some,
        ensures
            final(self).wf(),
            final(self).phase == Phase::Streaming,
            final(self).output_path == old(self).output_path,
            final(self).format == old(self).format,
            final(self).sink == old(self).sink,
    {
        self.phase = Phase::Streaming;
    }

    /// The per-buffer callback's effect: append the whole batch, in
    /// order, to the sink. When the sink is gone (already taken for
    /// finalizing) or the batch would overflow the container, the batch
    /// is silently discarded rather than blocking the audio thread.
    pub fn accept_samples(&mut self, batch: &Vec<i16>) -> (accepted: bool)
        requires
            old(self).wf(),
        ensures
            final(self).wf(),
            final(self).phase == old(self).phase,
            final(self).output_path == old(self).output_path,
            final(self).format == old(self).format,
            match old(self).sink {
                Option::Some(s) => {
                    &&& accepted == (2 * (s.samples@.len() + batch@.len()) <= MAX_DATA_BYTES)
                    &&& match final(self).sink {
                        Option::Some(s2) => {
                            &&& s2.format == s.format
                            &&& accepted ==> s2.samples@ == s.samples@ + batch@
                            &&& !accepted ==> s2.samples@ == s.samples@
                        },
                        Option::None => false,
                    }
                },
                Option::None => !accepted && final(self).sink is None,
            },
    {
        let taken = self.sink.take();
        match taken {
            Some(mut s) => {
                let accepted = s.append(batch);
                self.sink = Some(s);
                accepted
            },
            None => false,
        }
    }

    /// The interrupt request: streaming turns to stopping; in any other
    /// phase the request changes nothing. Idempotent, as a signal
    /// handler's one flag write must be.
    pub fn request_stop(&mut self)
        requires
            old(self).wf(),
        ensures
            final(self).wf(),
            final(self).phase == (if old(self).phase == Phase::Streaming {
                Phase::Stopping
            } else {
                old(self).phase
            }),
            final(self).output_path == old(self).output_path,
            final(self).format == old(self).format,
            final(self).sink == old(self).sink,
    {
        if self.phase == Phase::Streaming {
            self.phase = Phase::Stopping;
        }
    }

    /// Takes the sink — an irreversible `Some` to `None` transition —
    /// and returns the finished file's bytes. A later call finds the
    /// sink already absent, writes nothing and returns `None`.
    pub fn finalize(&mut self) -> (r: Option<Vec<u8>>)
        requires
            old(self).wf(),
        ensures
            final(self).wf(),
            final(self).sink is None,
            final(self).output_path == old(self).output_path,
            final(self).format == old(self).format,
            match (old(self).sink, r) {
                (Option::Some(s), Option::Some(b)) => {
                    &&& b@ == wav_file(
                        s.format.channels as nat,
                        s.format.sample_rate as nat,
                        s.samples@,
                    )
                    &&& final(self).phase == Phase::Finalized
                },
                (Option::None, Option::None) => final(self).phase == old(self).phase,
                _ => false,
            },
    {
        let taken = self.sink.take();
        match taken {
            Some(s) => {
                self.phase = Phase::Finalized;
                Some(wav_file_bytes(s.format.channels, s.format.sample_rate, &s.samples))
            },
            None => None,
        }
    }

    /// The law behind `finalize`: whatever a well-formed sink holds when
    /// it is taken, the file built from it is a structurally valid WAV
    /// file, and the file's sample-count field is exactly the number of
    /// samples the sink accepted before the take.
    pub proof fn lemma_finalized_file_valid(s: SampleSink)
        requires
            s.wf(),
        ensures
            valid_wav(
                wav_file(s.format.channels as nat, s.format.sample_rate as nat, s.samples@),
            ),
            wav_sample_count(
                wav_file(s.format.channels as nat, s.format.sample_rate as nat, s.samples@),
            ) == s.samples@.len(),
    {
        lemma_wav_file_valid(
            s.format.channels as nat,
            s.format.sample_rate as nat,
            s.samples@,
        );
    }

    /// How many samples the sink has accepted so far; `None` once the
    /// sink has been taken.
    pub fn accepted_count(&self) -> (r: Option<usize>)
        ensures
            match (self.sink, r) {
                (Option::Some(s), Option::Some(n)) => n == s.samples@.len(),
                (Option::None, Option::None) => true,
                _ => false,
            },
    {
        match &self.sink {
            Some(s) => Some(s.samples.len()),
            None => None,
        }
    }
}

} // verus!
