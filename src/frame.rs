use vstd::prelude::*;

use crate::pcm::PCM;

verus! {

/// Stereo frame: left and right channels.
pub type Stereo<S> = [S; 2];

/// Mono frame: a single channel.
pub type Mono<S> = [S; 1];

/// A single frame of sample channels.
pub trait Frame<S: PCM>: Sized {
    /// The channels' samples, in order.
    spec fn channels(&self) -> Seq<S>;

    /// The number of channels that this frame contains.
    fn num_channels(&self) -> (r: usize)
        ensures
            r == self.channels().len(),
    ;

    /// The channels' samples as a slice.
    fn samples(&self) -> (r: &[S])
        ensures
            r@ == self.channels(),
    ;

    /// The channels' samples as a mutable slice; writes through it land in the frame.
    fn samples_mut(&mut self) -> (r: &mut [S])
        ensures
            r@ == old(self).channels(),
            final(self).channels() == final(r)@,
    ;
}

impl<S: PCM, const N: usize> Frame<S> for [S; N] {
    open spec fn channels(&self) -> Seq<S> {
        self@
    }

    fn num_channels(&self) -> (r: usize) {
        N
    }

    fn samples(&self) -> (r: &[S]) {
        self.as_slice()
    }

    fn samples_mut(&mut self) -> (r: &mut [S]) {
        self
    }
}

} // verus!
