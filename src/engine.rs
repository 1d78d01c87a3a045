//! The engine: one value shared by an audio-producing context and a
//! rendering context, which meet only in the shared spectrum buffer.
//!
//! The buffer is a verified reader-writer lock whose invariant is that it
//! holds a whole frame: exactly `N/2` values, all of them either the silent
//! initial spectrum or the first `N/2` outputs of a single transform call.
//! Publishing swaps the whole frame under the write lock; reading copies
//! the whole frame under the read lock. The transform and the pixel loop
//! run outside the lock.
use vstd::prelude::*;
use vstd::rwlock::RwLock;
use crate::block::{padded_block, prepare_block, zeros};
use crate::color::ColorScheme;
use crate::frame::{frame_rendered, render_frame};

verus! {

/// `s` may stand in the shared buffer of an engine whose transform size is
/// `n`: it has `n/2` values, and is either all `zero` (nothing published yet)
/// or the first `n/2` values that `transform` gave for one block of `n`
/// samples.
pub open spec fn is_whole_frame<T, F: Fn(Vec<T>) -> Vec<T>>(
    transform: F,
    n: nat,
    zero: T,
    s: Seq<T>,
) -> bool {
    let bins = n / 2;
    &&& s.len() == bins
    &&& (s == zeros(bins, zero) || exists|block: Vec<T>, out: Vec<T>|
        #![trigger call_ensures(transform, (block,), out)]
        block@.len() == n && call_ensures(transform, (block,), out) && out@.len() >= bins && s
            == out@.take(bins as int))
}

/// The spectrum that one analysis yields when the transform returned `out`:
/// its first `bins` values, or nothing when it returned fewer.
pub open spec fn spectrum_from_output<T>(out: Seq<T>, bins: nat) -> Option<Seq<T>> {
    if out.len() >= bins {
        Some(out.take(bins as int))
    } else {
        None
    }
}

/// The contents of an optional vector.
pub open spec fn seq_of<T>(v: Option<Vec<T>>) -> Option<Seq<T>> {
    match v {
        Some(v) => Some(v@),
        None => None,
    }
}

/// The engine. `T` is the sample and magnitude type; `F` turns one block of
/// `N` samples into at least `N/2` magnitudes (the window, the Fourier
/// transform and the magnitude policy).
#[verifier::reject_recursive_types(T)]
pub struct AudioEngine<T, F: Fn(Vec<T>) -> Vec<T>> {
    sample_rate: u32,
    fft_size: usize,
    bins: usize,
    zero: T,
    tint: ColorScheme,
    transform: F,
    spectrum: RwLock<Vec<T>, spec_fn(Vec<T>) -> bool>,
}

impl<T, F: Fn(Vec<T>) -> Vec<T>> AudioEngine<T, F> {
    #[verifier::type_invariant]
    spec fn well_formed(&self) -> bool {
        &&& self.fft_size > 0
        &&& self.bins == self.fft_size / 2
        &&& forall|v: Vec<T>| #[trigger]
            self.spectrum.inv(v) == is_whole_frame(
                self.transform,
                self.fft_size as nat,
                self.zero,
                v@,
            )
        &&& forall|b: Vec<T>| b@.len() == self.fft_size ==> #[trigger] self.transform.requires((b,))
    }
}

impl<T: Copy, F: Fn(Vec<T>) -> Vec<T>> AudioEngine<T, F> {
    pub closed spec fn spec_sample_rate(&self) -> u32 {
        self.sample_rate
    }

    /// The transform size `N`.
    pub closed spec fn spec_fft_size(&self) -> nat {
        self.fft_size as nat
    }

    /// The value a missing sample reads as, and the silent magnitude.
    pub closed spec fn spec_zero(&self) -> T {
        self.zero
    }

    pub closed spec fn spec_tint(&self) -> ColorScheme {
        self.tint
    }

    pub closed spec fn spec_transform(&self) -> F {
        self.transform
    }

    /// The number of spectrum bins, `N/2`.
    pub open spec fn spec_bins(&self) -> nat {
        self.spec_fft_size() / 2
    }

    /// `s` is a frame that this engine's shared buffer may hold.
    pub open spec fn published_frame(&self, s: Seq<T>) -> bool {
        is_whole_frame(self.spec_transform(), self.spec_fft_size(), self.spec_zero(), s)
    }

    /// What analysing `data` may give: nothing for an empty block; otherwise
    /// the transform runs once on `data` cut or zero-padded to `N` samples,
    /// and the result is the first `N/2` values of its output.
    pub open spec fn analysis_of(&self, data: Seq<T>, result: Option<Seq<T>>) -> bool {
        if data.len() == 0 {
            result is None
        } else {
            exists|block: Vec<T>, out: Vec<T>|
                #![trigger call_ensures(self.spec_transform(), (block,), out)]
                block@ == padded_block(data, self.spec_fft_size(), self.spec_zero())
                    && call_ensures(self.spec_transform(), (block,), out) && result
                    == spectrum_from_output(out@, self.spec_bins())
        }
    }

    /// An engine with transform size `fft_size` whose spectrum starts silent:
    /// `fft_size / 2` copies of `zero`.
    pub fn new(sample_rate: u32, fft_size: usize, zero: T, tint: ColorScheme, transform: F) -> (e: Self)
        requires
            fft_size > 0,
            forall|b: Vec<T>| b@.len() == fft_size ==> #[trigger] transform.requires((b,)),
        ensures
            e.spec_sample_rate() == sample_rate,
            e.spec_fft_size() == fft_size,
            e.spec_zero() == zero,
            e.spec_tint() == tint,
            e.spec_transform() == transform,
    {
        let bins: usize = fft_size / 2;
        let initial = prepare_block(&[], bins, zero);
        assert(initial@ =~= zeros(bins as nat, zero));
        let ghost pred = |v: Vec<T>| is_whole_frame(transform, fft_size as nat, zero, v@);
        let spectrum = RwLock::new(initial, Ghost(pred));
        AudioEngine { sample_rate, fft_size, bins, zero, tint, transform, spectrum }
    }

    pub fn sample_rate(&self) -> (r: u32)
        ensures
            r == self.spec_sample_rate(),
    {
        self.sample_rate
    }

    /// The transform size `N`.
    pub fn fft_size(&self) -> (r: usize)
        ensures
            r == self.spec_fft_size(),
    {
        self.fft_size
    }

    /// The number of spectrum bins, `N/2`.
    pub fn bins(&self) -> (r: usize)
        ensures
            r == self.spec_bins(),
    {
        proof {
            use_type_invariant(self);
        }
        self.bins
    }

    pub fn tint(&self) -> (r: ColorScheme)
        ensures
            r == self.spec_tint(),
    {
        self.tint
    }

    /// Runs one analysis cycle on `data` without publishing it: the block
    /// is cut or zero-padded to `N` samples and handed to the transform
    /// once, and the first `N/2` values of its output are returned. An empty
    /// block gives `None` and runs nothing, as does a transform output
    /// shorter than `N/2`.
    pub fn analyze(&self, data: &[T]) -> (r: Option<Vec<T>>)
        ensures
            self.analysis_of(data@, seq_of(r)),
    {
        proof {
            use_type_invariant(self);
        }
        if data.len() == 0 {
            return None;
        }
        let block = prepare_block(data, self.fft_size, self.zero);
        let ghost handed = block;
        let mut out = (self.transform)(block);
        let ghost produced = out;
        assert(call_ensures(self.spec_transform(), (handed,), produced));
        if out.len() >= self.bins {
            out.truncate(self.bins);
            assert(out@ =~= produced@.take(self.bins as int));
            Some(out)
        } else {
            None
        }
    }

    /// Replaces the shared spectrum with `values`, whole, under the write
    /// lock.
    fn publish(&self, values: Vec<T>)
        requires
            self.published_frame(values@),
    {
        proof {
            use_type_invariant(self);
        }
        let (_previous, handle) = self.spectrum.acquire_write();
        handle.release_write(values);
    }

    /// Ingests one block of samples: analyses it outside the lock, then
    /// publishes the new spectrum. Returns whether a spectrum was published;
    /// an empty block is a no-op.
    pub fn process_audio(&self, data: &[T]) -> (published: bool)
        ensures
            exists|r: Option<Seq<T>>| self.analysis_of(data@, r) && published == r is Some,
            data@.len() == 0 ==> !published,
    {
        proof {
            use_type_invariant(self);
        }
        let result = self.analyze(data);
        match result {
            Some(values) => {
                self.publish(values);
                true
            },
            None => false,
        }
    }

    /// A copy of the whole spectrum as it stands, taken under the read lock.
    pub fn snapshot(&self) -> (s: Vec<T>)
        ensures
            self.published_frame(s@),
            s@.len() == self.spec_bins(),
    {
        proof {
            use_type_invariant(self);
        }
        let handle = self.spectrum.acquire_read();
        let current: &Vec<T> = handle.borrow();
        let mut copy: Vec<T> = Vec::new();
        let mut i: usize = 0;
        while i < current.len()
            invariant
                i <= current@.len(),
                copy@ == current@.take(i as int),
            decreases current@.len() - i,
        {
            copy.push(current[i]);
            i = i + 1;
            assert(copy@ =~= current@.take(i as int));
        }
        assert(copy@ =~= current@);
        handle.release_read();
        copy
    }

    /// Paints one frame from the spectrum as it stands: the spectrum is
    /// copied under the read lock, then every pixel `p` (column `p % width`,
    /// row `p / width`) gets, with alpha 255, the engine's tint applied to
    /// the gray level that `shade` gives for its column, its row and the
    /// value of the bin `floor(column * (N/2) / width)`.
    pub fn draw<G: Fn(u32, u32, T) -> u8>(&self, frame: &mut [u8], width: u32, height: u32, shade: G)
        requires
            old(frame)@.len() == 4 * width * height,
            forall|x: u32, y: u32, m: T| shade.requires((x, y, m)),
        ensures
            exists|s: Seq<T>|
                self.published_frame(s) && frame_rendered(
                    final(frame)@,
                    width as int,
                    height as int,
                    s,
                    self.spec_zero(),
                    self.spec_tint(),
                    shade,
                ),
            forall|p: int| 0 <= p < width * height ==> #[trigger] final(frame)@[4 * p + 3] == 255,
    {
        let current = self.snapshot();
        render_frame(frame, width, height, current.as_slice(), self.zero, self.tint, shade);
    }

    /// Every spectrum a reader can observe, and every spectrum an analysis
    /// yields, has exactly `N/2` values.
    pub proof fn spectrum_length_is_fixed(&self, observed: Seq<T>, data: Seq<T>, analysed: Seq<T>)
        requires
            self.published_frame(observed),
            self.analysis_of(data, Some(analysed)),
        ensures
            observed.len() == self.spec_fft_size() / 2,
            analysed.len() == self.spec_fft_size() / 2,
    {
    }

    /// Zero-padding is the engine's own: a non-empty block of at most `N`
    /// samples and the same block followed by explicit zeros up to `N` hand
    /// the transform the same block, so they admit the same spectra.
    pub proof fn padding_matches_explicit_zeros(&self, prefix: Seq<T>, result: Option<Seq<T>>)
        requires
            0 < prefix.len() <= self.spec_fft_size(),
        ensures
            self.analysis_of(prefix, result) == self.analysis_of(
                prefix + zeros((self.spec_fft_size() - prefix.len()) as nat, self.spec_zero()),
                result,
            ),
    {
        let n = self.spec_fft_size();
        let zero = self.spec_zero();
        let padded = prefix + zeros((n - prefix.len()) as nat, zero);
        assert(padded_block(prefix, n, zero) =~= padded_block(padded, n, zero));
    }

    /// Reads never tear: every spectrum a reader observes is the silent
    /// initial one or, whole, the first `N/2` values of the output of one
    /// single transform call on one block of `N` samples.
    pub proof fn reads_observe_whole_frames(&self, observed: Seq<T>)
        requires
            self.published_frame(observed),
        ensures
            observed == zeros(self.spec_bins(), self.spec_zero()) || exists|block: Vec<T>, out: Vec<T>|
                #![trigger call_ensures(self.spec_transform(), (block,), out)]
                block@.len() == self.spec_fft_size() && call_ensures(
                    self.spec_transform(),
                    (block,),
                    out,
                ) && observed == out@.take(self.spec_bins() as int),
    {
    }
}

} // verus!
