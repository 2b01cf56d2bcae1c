use vstd::prelude::*;

verus! {

/// A node that must learn the sample rate before it processes.
pub trait Prepare {
    /// Recomputes whatever depends on the sample rate.
    fn prepare(&mut self, sample_rate: usize);
}

/// A node that turns one input into one output, and a block of them element by element.
pub trait Process<I, O>: Sized {
    /// What `process` returns from this state on `input`.
    spec fn process_out(&self, input: I) -> O;

    /// The state that `process` leaves from this state on `input`.
    spec fn process_next(&self, input: I) -> Self;

    /// Processes a single input.
    fn process(&mut self, input: &I) -> (r: O)
        ensures
            r == old(self).process_out(*input),
            *final(self) == old(self).process_next(*input),
    ;

    /// Processes `input` in order into the front of `output`: `output[j]` is what the
    /// `j`-th call of `process` returned on `input[j]`. The rest of `output` is left as it
    /// was.
    fn batch(&mut self, input: &[I], output: &mut [O])
        requires
            old(output)@.len() >= input@.len(),
        ensures
            final(output)@.len() == old(output)@.len(),
            exists|states: Seq<Self>|
                {
                    &&& #[trigger] states.len() == input@.len() + 1
                    &&& states[0] == *old(self)
                    &&& states[input@.len() as int] == *final(self)
                    &&& forall|j: int|
                        0 <= j < input@.len() ==> states[j + 1] == #[trigger] states[j].process_next(
                            input@[j],
                        ) && final(output)@[j] == states[j].process_out(input@[j])
                },
            forall|j: int|
                input@.len() <= j < old(output)@.len() ==> #[trigger] final(output)@[j]
                    == old(output)@[j],
    {
        let n = input.len();
        let mut idx: usize = 0;
        let ghost mut states: Seq<Self> = seq![*self];
        while idx < n
            invariant
                n == input@.len(),
                idx <= n,
                output@.len() == old(output)@.len(),
                old(output)@.len() >= n,
                states.len() == idx + 1,
                states[0] == *old(self),
                states[idx as int] == *self,
                forall|j: int|
                    0 <= j < idx ==> states[j + 1] == #[trigger] states[j].process_next(input@[j])
                        && output@[j] == states[j].process_out(input@[j]),
                forall|j: int| n <= j < output@.len() ==> #[trigger] output@[j] == old(output)@[j],
            decreases n - idx,
        {
            let v = self.process(&input[idx]);
            output[idx] = v;
            proof {
                states = states.push(*self);
            }
            idx = idx + 1;
        }
    }
}

/// An audio node which can process individual or batches of samples.
pub trait AudioNode<I, O>: Sized {
    /// What `tick` returns from this state on `input`.
    spec fn tick_out(&self, input: I) -> O;

    /// The state that `tick` leaves from this state on `input`.
    spec fn tick_next(&self, input: I) -> Self;

    /// Prepares the node before processing; nodes that do not depend on the sample rate
    /// need not override it.
    fn prepare(&mut self, sample_rate: usize) {
    }

    /// Processes a single sample.
    fn tick(&mut self, input: &I) -> (r: O)
        ensures
            r == old(self).tick_out(*input),
            *final(self) == old(self).tick_next(*input),
    ;

    /// Processes `input` in order into the front of `output`: `output[j]` is what the
    /// `j`-th tick returned on `input[j]`. The rest of `output` is left as it was.
    fn batch(&mut self, input: &[I], output: &mut [O])
        requires
            old(output)@.len() >= input@.len(),
        ensures
            final(output)@.len() == old(output)@.len(),
            exists|states: Seq<Self>|
                {
                    &&& #[trigger] states.len() == input@.len() + 1
                    &&& states[0] == *old(self)
                    &&& states[input@.len() as int] == *final(self)
                    &&& forall|j: int|
                        0 <= j < input@.len() ==> states[j + 1] == #[trigger] states[j].tick_next(
                            input@[j],
                        ) && final(output)@[j] == states[j].tick_out(input@[j])
                },
            forall|j: int|
                input@.len() <= j < old(output)@.len() ==> #[trigger] final(output)@[j]
                    == old(output)@[j],
    {
        let n = input.len();
        let mut idx: usize = 0;
        let ghost mut states: Seq<Self> = seq![*self];
        while idx < n
            invariant
                n == input@.len(),
                idx <= n,
                output@.len() == old(output)@.len(),
                old(output)@.len() >= n,
                states.len() == idx + 1,
                states[0] == *old(self),
                states[idx as int] == *self,
                forall|j: int|
                    0 <= j < idx ==> states[j + 1] == #[trigger] states[j].tick_next(input@[j])
                        && output@[j] == states[j].tick_out(input@[j]),
                forall|j: int| n <= j < output@.len() ==> #[trigger] output@[j] == old(output)@[j],
            decreases n - idx,
        {
            let v = self.tick(&input[idx]);
            output[idx] = v;
            proof {
                states = states.push(*self);
            }
            idx = idx + 1;
        }
    }
}

} // verus!
