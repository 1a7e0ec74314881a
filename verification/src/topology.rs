//! The shape rules of a layered model: which layers fit together, which
//! inputs a layer takes, and in which order its two passes may be called.
//!
//! Nothing here touches a weight. A layer is seen as two lengths, and the
//! rules are checked on lengths before any arithmetic is done.

use vstd::prelude::*;

verus! {

/// Why a model, a call or a data set is refused.
#[derive(Clone, Copy, Debug, PartialEq, Eq, Structural)]
pub enum ModelError {
    /// Two lengths that must agree do not.
    DimensionMismatch,
    /// A backward pass was asked for with no forward pass before it that is
    /// still unanswered.
    BackwardWithoutForward,
    /// An epoch was asked for over no examples.
    EmptyDataset,
}

/// The two lengths of a dense layer.
#[derive(Clone, Copy, Debug, PartialEq, Eq, Structural)]
pub struct LayerShape {
    /// Length of the vectors that the layer takes.
    pub inputs: usize,
    /// Number of its units, and so the length of the vectors that it gives.
    pub units: usize,
}

/// Every unit has `inputs` weights.
pub open spec fn uniform(weight_counts: Seq<usize>, inputs: usize) -> bool {
    forall|i: int| 0 <= i < weight_counts.len() ==> weight_counts[i] == inputs
}

/// Each layer gives vectors of the length that the next one takes.
pub open spec fn chained(shapes: Seq<LayerShape>) -> bool {
    forall|i: int|
        0 <= i < shapes.len() - 1 ==> (#[trigger] shapes[i]).units == shapes[i + 1].inputs
}

/// The shape of a layer whose units have the given numbers of weights. All
/// units must have as many weights as the first; a layer without units takes
/// vectors of length zero.
pub fn layer_shape(weight_counts: &Vec<usize>) -> (shape: Result<LayerShape, ModelError>)
    ensures
        shape is Ok <==> (weight_counts@.len() == 0 || uniform(weight_counts@, weight_counts@[0])),
        shape matches Ok(s) ==> s.units == weight_counts@.len() && uniform(weight_counts@, s.inputs)
            && (weight_counts@.len() == 0 ==> s.inputs == 0),
        shape matches Err(e) ==> e == ModelError::DimensionMismatch,
{
    if weight_counts.len() == 0 {
        return Ok(LayerShape { inputs: 0, units: 0 });
    }
    let inputs: usize = weight_counts[0];
    let mut i: usize = 1;
    while i < weight_counts.len()
        invariant
            1 <= i <= weight_counts@.len(),
            inputs == weight_counts@[0],
            forall|j: int| 0 <= j < i ==> weight_counts@[j] == inputs,
        decreases weight_counts@.len() - i,
    {
        if weight_counts[i] != inputs {
            return Err(ModelError::DimensionMismatch);
        }
        i += 1;
    }
    Ok(LayerShape { inputs, units: weight_counts.len() })
}

/// Accepts a sequence of layers exactly when each gives what the next takes.
pub fn check_chain(shapes: &Vec<LayerShape>) -> (verdict: Result<(), ModelError>)
    ensures
        verdict is Ok <==> chained(shapes@),
        verdict matches Err(e) ==> e == ModelError::DimensionMismatch,
{
    if shapes.len() == 0 {
        return Ok(());
    }
    let mut i: usize = 0;
    while i < shapes.len() - 1
        invariant
            shapes@.len() > 0,
            i <= shapes@.len() - 1,
            forall|j: int| 0 <= j < i ==> (#[trigger] shapes@[j]).units == shapes@[j + 1].inputs,
        decreases shapes@.len() - i,
    {
        if shapes[i].units != shapes[i + 1].inputs {
            return Err(ModelError::DimensionMismatch);
        }
        i += 1;
    }
    Ok(())
}

/// Accepts a set of examples for an epoch exactly when there is one: the
/// mean loss of no examples is not defined.
pub fn require_examples(count: usize) -> (verdict: Result<(), ModelError>)
    ensures
        verdict is Ok <==> count > 0,
        verdict matches Err(e) ==> e == ModelError::EmptyDataset,
{
    if count == 0 {
        Err(ModelError::EmptyDataset)
    } else {
        Ok(())
    }
}

/// Keeps the two passes of one layer in step. A forward pass fills the
/// layer's cache; the one backward pass that follows uses it up.
#[derive(Clone, Copy, Debug, PartialEq, Eq, Structural)]
pub struct LayerGuard {
    pub shape: LayerShape,
    /// A forward pass has filled the cache and no backward pass has used it.
    pub primed: bool,
}

impl LayerGuard {
    /// The guard of a layer on which no pass has been made.
    pub fn new(shape: LayerShape) -> (guard: Self)
        ensures
            guard == (LayerGuard { shape, primed: false }),
    {
        LayerGuard { shape, primed: false }
    }

    /// Admits a forward pass on an input of the layer's input length, and
    /// gives the length of its output; the cache is filled from then on. Any
    /// other input is refused and the guard left as it is.
    pub fn forward(&mut self, input_len: usize) -> (output_len: Result<usize, ModelError>)
        ensures
            output_len is Ok <==> input_len == old(self).shape.inputs,
            output_len matches Ok(n) ==> n == old(self).shape.units && *final(self) == (LayerGuard {
                shape: old(self).shape,
                primed: true,
            }),
            output_len matches Err(e) ==> e == ModelError::DimensionMismatch && *final(self) == *old(
                self,
            ),
    {
        if input_len != self.shape.inputs {
            return Err(ModelError::DimensionMismatch);
        }
        self.primed = true;
        Ok(self.shape.units)
    }

    /// What a backward pass with `gradient_len` output gradients is answered
    /// in this state.
    pub open spec fn backward_verdict(self, gradient_len: usize) -> Result<usize, ModelError> {
        if !self.primed {
            Err(ModelError::BackwardWithoutForward)
        } else if gradient_len != self.shape.units {
            Err(ModelError::DimensionMismatch)
        } else {
            Ok(self.shape.inputs)
        }
    }

    /// Admits a backward pass when the cache is filled and there is one
    /// gradient for each unit, and gives the length of the input gradients;
    /// the cache is used up from then on. A pass with no forward pass before
    /// it, or a second one in a row, is refused, and so is a gradient of the
    /// wrong length; the guard is then left as it is.
    pub fn backward(&mut self, gradient_len: usize) -> (input_len: Result<usize, ModelError>)
        ensures
            input_len == old(self).backward_verdict(gradient_len),
            input_len is Ok ==> *final(self) == (LayerGuard {
                shape: old(self).shape,
                primed: false,
            }),
            input_len is Err ==> *final(self) == *old(self),
    {
        if !self.primed {
            return Err(ModelError::BackwardWithoutForward);
        }
        if gradient_len != self.shape.units {
            return Err(ModelError::DimensionMismatch);
        }
        self.primed = false;
        Ok(self.shape.inputs)
    }
}

/// The length that comes out when a vector of length `input_len` is passed
/// forward through the layers, first to last, each admitting what
/// `LayerGuard::forward` admits; `None` where one of them refuses.
pub open spec fn forward_through(shapes: Seq<LayerShape>, input_len: usize) -> Option<usize>
    decreases shapes.len(),
{
    if shapes.len() == 0 {
        Some(input_len)
    } else {
        match forward_through(shapes.drop_last(), input_len) {
            Some(n) => if n == shapes.last().inputs {
                Some(shapes.last().units)
            } else {
                None
            },
            None => None,
        }
    }
}

/// The length that comes out when gradients of length `gradient_len` are
/// passed backward through the layers, last to first, each admitting the
/// lengths that `LayerGuard::backward` admits; `None` where one of them
/// refuses.
pub open spec fn backward_through(shapes: Seq<LayerShape>, gradient_len: usize) -> Option<usize>
    decreases shapes.len(),
{
    if shapes.len() == 0 {
        Some(gradient_len)
    } else if gradient_len == shapes.last().units {
        backward_through(shapes.drop_last(), shapes.last().inputs)
    } else {
        None
    }
}

/// In a model whose layers are chained, a forward pass can only be refused at
/// the first layer: an input of that layer's length goes through all of them
/// and comes out with the last layer's number of units.
pub proof fn lemma_chained_forward(shapes: Seq<LayerShape>, input_len: usize)
    requires
        chained(shapes),
        shapes.len() > 0,
    ensures
        forward_through(shapes, input_len) == if input_len == shapes[0].inputs {
            Some(shapes.last().units)
        } else {
            None::<usize>
        },
    decreases shapes.len(),
{
    let front = shapes.drop_last();
    if front.len() > 0 {
        assert(chained(front)) by {
            assert forall|i: int| 0 <= i < front.len() - 1 implies (#[trigger] front[i]).units
                == front[i + 1].inputs by {
                assert(shapes[i].units == shapes[i + 1].inputs);
            }
        }
        lemma_chained_forward(front, input_len);
        assert(shapes[shapes.len() - 2].units == shapes[shapes.len() - 2 + 1].inputs);
    } else {
        assert(forward_through(front, input_len) == Some(input_len));
    }
}

/// In a model whose layers are chained, a backward pass can only be refused
/// for its length at the last layer: one gradient for each unit of that
/// layer goes back through all of them and comes out with the first layer's
/// input length.
pub proof fn lemma_chained_backward(shapes: Seq<LayerShape>, gradient_len: usize)
    requires
        chained(shapes),
        shapes.len() > 0,
    ensures
        backward_through(shapes, gradient_len) == if gradient_len == shapes.last().units {
            Some(shapes[0].inputs)
        } else {
            None::<usize>
        },
    decreases shapes.len(),
{
    let front = shapes.drop_last();
    if gradient_len == shapes.last().units {
        if front.len() > 0 {
            assert(chained(front)) by {
                assert forall|i: int| 0 <= i < front.len() - 1 implies (#[trigger] front[i]).units
                    == front[i + 1].inputs by {
                    assert(shapes[i].units == shapes[i + 1].inputs);
                }
            }
            assert(shapes[shapes.len() - 2].units == shapes[shapes.len() - 2 + 1].inputs);
            lemma_chained_backward(front, shapes.last().inputs);
        }
    }
}

/// Keeps the passes of a whole model in step. Its layers are chained, which
/// is checked once, when the guard is built: from then on a pass can only be
/// refused at the end where it enters the model.
#[derive(Debug)]
pub struct ModelGuard {
    shapes: Vec<LayerShape>,
    primed: bool,
}

impl ModelGuard {
    /// The shapes of the model's layers, first to last.
    pub closed spec fn shapes(&self) -> Seq<LayerShape> {
        self.shapes@
    }

    /// A forward pass has filled the caches of all layers and no backward
    /// pass has used them.
    pub closed spec fn primed(&self) -> bool {
        self.primed
    }

    #[verifier::type_invariant]
    closed spec fn inv(&self) -> bool {
        chained(self.shapes@)
    }

    /// The guard of a model of the given layers, on which no pass has been
    /// made. Layers that are not chained are refused.
    pub fn new(shapes: Vec<LayerShape>) -> (guard: Result<Self, ModelError>)
        ensures
            guard is Ok <==> chained(shapes@),
            guard matches Ok(g) ==> g.shapes() == shapes@ && !g.primed(),
            guard matches Err(e) ==> e == ModelError::DimensionMismatch,
    {
        match check_chain(&shapes) {
            Ok(()) => Ok(ModelGuard { shapes, primed: false }),
            Err(e) => Err(e),
        }
    }

    /// Admits a forward pass exactly when the input goes through all layers,
    /// one after the other, and gives the length of the model's output; the
    /// caches of all layers are filled from then on. A model without layers
    /// gives its input back. Any other input is refused and the guard left
    /// as it is.
    pub fn forward(&mut self, input_len: usize) -> (output_len: Result<usize, ModelError>)
        ensures
            final(self).shapes() == old(self).shapes(),
            chained(final(self).shapes()),
            match forward_through(old(self).shapes(), input_len) {
                Some(n) => output_len == Ok::<usize, ModelError>(n) && final(self).primed(),
                None => output_len == Err::<usize, ModelError>(ModelError::DimensionMismatch)
                    && final(self).primed() == old(self).primed(),
            },
    {
        proof {
            use_type_invariant(&*self);
            if self.shapes@.len() > 0 {
                lemma_chained_forward(self.shapes@, input_len);
            }
        }
        let count = self.shapes.len();
        if count == 0 {
            self.primed = true;
            Ok(input_len)
        } else if input_len == self.shapes[0].inputs {
            self.primed = true;
            Ok(self.shapes[count - 1].units)
        } else {
            Err(ModelError::DimensionMismatch)
        }
    }

    /// Admits a backward pass when the caches are filled and the gradients
    /// go back through all layers, last to first, and gives the length of the
    /// gradients that come out at the model's input; the caches are used up
    /// from then on. A pass with no forward pass before it, or a second one
    /// in a row, is refused, and so is a gradient of the wrong length; the
    /// guard is then left as it is.
    pub fn backward(&mut self, gradient_len: usize) -> (input_len: Result<usize, ModelError>)
        ensures
            final(self).shapes() == old(self).shapes(),
            chained(final(self).shapes()),
            !old(self).primed() ==> input_len == Err::<usize, ModelError>(
                ModelError::BackwardWithoutForward,
            ) && !final(self).primed(),
            old(self).primed() ==> match backward_through(old(self).shapes(), gradient_len) {
                Some(n) => input_len == Ok::<usize, ModelError>(n) && !final(self).primed(),
                None => input_len == Err::<usize, ModelError>(ModelError::DimensionMismatch)
                    && final(self).primed(),
            },
    {
        proof {
            use_type_invariant(&*self);
            if self.shapes@.len() > 0 {
                lemma_chained_backward(self.shapes@, gradient_len);
            }
        }
        if !self.primed {
            return Err(ModelError::BackwardWithoutForward);
        }
        let count = self.shapes.len();
        if count == 0 {
            self.primed = false;
            Ok(gradient_len)
        } else if gradient_len == self.shapes[count - 1].units {
            self.primed = false;
            Ok(self.shapes[0].inputs)
        } else {
            Err(ModelError::DimensionMismatch)
        }
    }

    /// Number of layers.
    pub fn layer_count(&self) -> (count: usize)
        ensures
            count == self.shapes().len(),
    {
        self.shapes.len()
    }
}

impl Clone for ModelGuard {
    fn clone(&self) -> (copy: Self)
        ensures
            copy.shapes() == self.shapes(),
            copy.primed() == self.primed(),
    {
        proof {
            use_type_invariant(self);
        }
        let mut shapes: Vec<LayerShape> = Vec::new();
        let mut i: usize = 0;
        while i < self.shapes.len()
            invariant
                i <= self.shapes@.len(),
                shapes@ == self.shapes@.take(i as int),
            decreases self.shapes@.len() - i,
        {
            shapes.push(self.shapes[i]);
            assert(self.shapes@.take(i + 1) == self.shapes@.take(i as int).push(
                self.shapes@[i as int],
            ));
            i += 1;
        }
        assert(shapes@ == self.shapes@);
        ModelGuard { shapes, primed: self.primed }
    }
}

} // verus!
