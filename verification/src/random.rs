//! Cryptographically secure random byte buffers that can be wiped after use.

use rand_chacha::ChaCha12Rng;
use rand_core::{RngCore, SeedableRng};
use vstd::prelude::*;

verus! {

/// A fixed-size buffer of random bytes. The buffer can be wiped with
/// [`Self::zeroize`] once its content has been consumed, to shorten the time
/// the raw material lives in memory.
pub struct RandomBytes<const N: usize>([u8; N]);

impl<const N: usize> RandomBytes<N> {
    /// A zeroed buffer.
    pub fn new() -> (r: Self)
        ensures
            forall|i: int| 0 <= i < N ==> r@[i] == 0u8,
            r@.len() == N,
    {
        RandomBytes([0u8; N])
    }

    /// Relies on `rand_chacha::ChaCha12Rng` seeded from the operating-system
    /// entropy source: fills the buffer with random bytes. Nothing is
    /// promised of the values drawn.
    #[verifier::external_body]
    pub fn generate_with_buffer(buffer: &mut [u8; N])
        ensures
            final (buffer)@.len() == N,
    {
        let mut rng = ChaCha12Rng::from_os_rng();
        rng.fill_bytes(buffer);
    }

    /// A buffer freshly filled from the entropy source.
    pub fn generate() -> (r: Self)
        ensures
            r@.len() == N,
    {
        let mut buffer = Self::new();
        Self::generate_with_buffer(&mut buffer.0);
        buffer
    }

    /// The bytes held by the buffer.
    pub fn expose(&self) -> (r: &[u8; N])
        ensures
            r@ == self@,
    {
        &self.0
    }

    /// Overwrites every byte with zero.
    pub fn zeroize(&mut self)
        ensures
            final (self)@.len() == N,
            forall|i: int| 0 <= i < N ==> final (self)@[i] == 0u8,
    {
        self.0 = [0u8; N];
    }
}

impl<const N: usize> View for RandomBytes<N> {
    type V = Seq<u8>;

    closed spec fn view(&self) -> Seq<u8> {
        self.0@
    }
}

impl<const N: usize> Default for RandomBytes<N> {
    /// A zeroed buffer, as [`Self::new`] returns.
    fn default() -> (r: Self)
        ensures
            forall|i: int| 0 <= i < N ==> r@[i] == 0u8,
            r@.len() == N,
    {
        Self::new()
    }
}

} // verus!
