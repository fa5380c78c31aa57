//! A feed-forward network and the context that evaluates it on a provider of
//! the matrix-vector product.

use vstd::prelude::*;
use std::marker::PhantomData;
use crate::blas::{Blas, Error};

verus! {

/// The function that a neuron applies to its weighted input.
pub trait Activator<F> {
    fn activate(x: F) -> F;
}

/// The shape and the coefficients of a network.
pub struct NeuralNet<F, A: Activator<F>> {
    phantom: PhantomData<A>,
    inputs: usize,
    input_neurons: usize,
    folding_step: isize,
    layers: usize,
    coefs: Vec<F>,
}

/// A provider of the product and the two buffers that an evaluation
/// alternates between.
pub struct Context<F, B: Blas<F>> {
    blas: B,
    vec1: Vec<F>,
    vec2: Vec<F>,
}

impl<F, B: Blas<F>> Context<F, B> {
    /// The elements of the first buffer.
    pub closed spec fn first_buffer(&self) -> Seq<F> {
        self.vec1@
    }

    /// Hands out the first buffer as it stands.
    pub fn compute<'a, A: Activator<F>>(&'a mut self, net: &NeuralNet<F, A>, input: &[F]) -> (result:
        Result<&'a [F], Error>)
        ensures
            result is Ok,
            result->Ok_0@ == old(self).first_buffer(),
            *final(self) == *old(self),
    {
        Ok(self.vec1.as_slice())
    }
}

} // verus!
