//! Training examples and the truth tables of the logic gates.

use vstd::prelude::*;
use crate::error::Error;
use crate::scalar::Scalar;

verus! {

/// One row of a table: the inputs and the output that is wanted for them.
#[derive(Clone, Debug, PartialEq)]
pub struct TrainingExample<S: Scalar> {
    pub inputs: Vec<S>,
    pub expected: S,
}

impl<S: Scalar> View for TrainingExample<S> {
    type V = (Seq<S>, S);

    /// The inputs, then the expected output.
    open spec fn view(&self) -> (Seq<S>, S) {
        (self.inputs@, self.expected)
    }
}

/// An ordered table of examples that all take the same number of inputs.
/// Once made, a table does not change.
#[derive(Debug, PartialEq)]
pub struct TrainingDataSet<S: Scalar> {
    arity: usize,
    examples: Vec<TrainingExample<S>>,
}

/// Whether every row of `rows` has `arity` inputs.
pub open spec fn uniform<S>(rows: Seq<(Seq<S>, S)>, arity: nat) -> bool {
    forall|i: int| 0 <= i < rows.len() ==> (#[trigger] rows[i]).0.len() == arity
}

/// The scalar for the decimal number `tenths / 10`.
pub open spec fn decimal_spec<S: Scalar>(tenths: u64) -> S {
    S::from_count_spec(tenths).over_spec(S::from_count_spec(10))
}

/// The row with two inputs whose three numbers are given in tenths.
pub open spec fn row_spec<S: Scalar>(x1: u64, x2: u64, expected: u64) -> (Seq<S>, S) {
    (seq![decimal_spec::<S>(x1), decimal_spec::<S>(x2)], decimal_spec::<S>(expected))
}

/// The truth table of OR.
pub open spec fn or_table<S: Scalar>() -> Seq<(Seq<S>, S)> {
    seq![row_spec(0, 0, 0), row_spec(10, 0, 10), row_spec(0, 10, 10), row_spec(10, 10, 10)]
}

/// The OR table with the first input of its second row lowered to 0.3.
pub open spec fn noisy_or_table<S: Scalar>() -> Seq<(Seq<S>, S)> {
    seq![row_spec(0, 0, 0), row_spec(3, 0, 10), row_spec(0, 10, 10), row_spec(10, 10, 10)]
}

/// The truth table of AND.
pub open spec fn and_table<S: Scalar>() -> Seq<(Seq<S>, S)> {
    seq![row_spec(0, 0, 0), row_spec(10, 0, 0), row_spec(0, 10, 0), row_spec(10, 10, 10)]
}

/// The AND table with two more rows, for the first inputs 0.3 and 5.
pub open spec fn noisy_and_table<S: Scalar>() -> Seq<(Seq<S>, S)> {
    seq![
        row_spec(0, 0, 0),
        row_spec(3, 0, 0),
        row_spec(50, 0, 0),
        row_spec(10, 0, 0),
        row_spec(0, 10, 0),
        row_spec(10, 10, 10),
    ]
}

/// The truth table of NAND.
pub open spec fn nand_table<S: Scalar>() -> Seq<(Seq<S>, S)> {
    seq![row_spec(0, 0, 10), row_spec(10, 0, 10), row_spec(0, 10, 10), row_spec(10, 10, 0)]
}

/// The truth table of XOR.
pub open spec fn xor_table<S: Scalar>() -> Seq<(Seq<S>, S)> {
    seq![row_spec(0, 0, 0), row_spec(10, 0, 10), row_spec(0, 10, 10), row_spec(10, 10, 0)]
}

/// The row with one input, both numbers whole.
pub open spec fn whole_row_spec<S: Scalar>(x: u64, expected: u64) -> (Seq<S>, S) {
    (seq![S::from_count_spec(x)], S::from_count_spec(expected))
}

/// The table of the first five whole numbers and their doubles.
pub open spec fn doubling_table<S: Scalar>() -> Seq<(Seq<S>, S)> {
    seq![
        whole_row_spec(0, 0),
        whole_row_spec(1, 2),
        whole_row_spec(2, 4),
        whole_row_spec(3, 6),
        whole_row_spec(4, 8),
    ]
}

/// Builds the row with one input, both numbers whole.
pub fn whole_row<S: Scalar>(x: u64, expected: u64) -> (r: TrainingExample<S>)
    ensures
        r@ == whole_row_spec::<S>(x, expected),
{
    let mut inputs: Vec<S> = Vec::with_capacity(1);
    inputs.push(S::from_count(x));
    proof {
        assert(inputs@ =~= seq![S::from_count_spec(x)]);
    }
    TrainingExample { inputs, expected: S::from_count(expected) }
}

/// Computes the scalar for the decimal number `tenths / 10`.
pub fn decimal<S: Scalar>(tenths: u64) -> (r: S)
    ensures
        r == decimal_spec::<S>(tenths),
{
    S::from_count(tenths).over(S::from_count(10))
}

/// Builds the row with two inputs whose three numbers are given in tenths.
pub fn row<S: Scalar>(x1: u64, x2: u64, expected: u64) -> (r: TrainingExample<S>)
    ensures
        r@ == row_spec::<S>(x1, x2, expected),
{
    let mut inputs: Vec<S> = Vec::with_capacity(2);
    inputs.push(decimal(x1));
    inputs.push(decimal(x2));
    proof {
        assert(inputs@ =~= seq![decimal_spec::<S>(x1), decimal_spec::<S>(x2)]);
    }
    TrainingExample { inputs, expected: decimal(expected) }
}

/// The rows of a sequence of examples, each as its inputs and its expected
/// output.
pub open spec fn rows_of<S: Scalar>(examples: Seq<TrainingExample<S>>) -> Seq<(Seq<S>, S)> {
    examples.map_values(|e: TrainingExample<S>| e@)
}

impl<S: Scalar> View for TrainingDataSet<S> {
    type V = Seq<(Seq<S>, S)>;

    /// The rows in order, each as its inputs and its expected output.
    closed spec fn view(&self) -> Seq<(Seq<S>, S)> {
        rows_of(self.examples@)
    }
}

impl<S: Scalar> TrainingDataSet<S> {
    /// The number of inputs that every row has.
    pub closed spec fn arity_spec(self) -> nat {
        self.arity as nat
    }

    /// Every row has as many inputs as the table's arity says.
    #[verifier::type_invariant]
    pub open spec fn uniform_rows(self) -> bool {
        uniform(self@, self.arity_spec())
    }

    /// Makes a table of the given rows, or `None` where one of them has not
    /// `arity` inputs.
    pub fn new(arity: usize, examples: Vec<TrainingExample<S>>) -> (r: Option<TrainingDataSet<S>>)
        ensures
            uniform(rows_of(examples@), arity as nat) <==> r is Some,
            r is Some ==> {
                &&& r.unwrap().arity_spec() == arity
                &&& r.unwrap()@ == rows_of(examples@)
            },
    {
        let mut i: usize = 0;
        while i < examples.len()
            invariant
                i <= examples.len(),
                forall|t: int| 0 <= t < i ==> (#[trigger] examples@[t]).inputs@.len() == arity,
            decreases examples.len() - i,
        {
            if examples[i].inputs.len() != arity {
                proof {
                    assert(rows_of(examples@)[i as int].0.len() != arity);
                }
                return None;
            }
            i += 1;
        }
        proof {
            assert forall|t: int| 0 <= t < examples@.len() implies (#[trigger] rows_of(
                examples@,
            )[t]).0.len() == arity by {
                assert(examples@[t].inputs@.len() == arity);
            }
        }
        Some(TrainingDataSet { arity, examples })
    }

    /// Returns the number of rows.
    pub fn len(&self) -> (r: usize)
        ensures
            r == self@.len(),
    {
        self.examples.len()
    }

    /// Returns the number of inputs that every row has.
    pub fn arity(&self) -> (r: usize)
        ensures
            r == self.arity_spec(),
    {
        self.arity
    }

    /// Borrows row `index` of a table that has such a row.
    pub(crate) fn at(&self, index: usize) -> (r: &TrainingExample<S>)
        requires
            index < self@.len(),
        ensures
            r@ == self@[index as int],
            r@.0.len() == self.arity_spec(),
    {
        proof {
            use_type_invariant(self);
        }
        &self.examples[index]
    }

    /// Borrows row `index`, or reports `OutOfBounds` where the table is
    /// shorter.
    pub fn example(&self, index: usize) -> (r: Result<&TrainingExample<S>, Error>)
        ensures
            index < self@.len() ==> r is Ok && r.unwrap()@ == self@[index as int]
                && r.unwrap()@.0.len() == self.arity_spec(),
            index >= self@.len() ==> r == Err::<&TrainingExample<S>, Error>(Error::OutOfBounds),
    {
        proof {
            use_type_invariant(self);
        }
        if index >= self.examples.len() {
            return Err(Error::OutOfBounds);
        }
        Ok(&self.examples[index])
    }

    fn of_pairs(rows: Vec<TrainingExample<S>>) -> (r: TrainingDataSet<S>)
        requires
            uniform(rows_of(rows@), 2),
        ensures
            r@ == rows_of(rows@),
            r.arity_spec() == 2,
    {
        TrainingDataSet { arity: 2, examples: rows }
    }

    /// Makes the truth table of OR.
    pub fn or_gate() -> (r: TrainingDataSet<S>)
        ensures
            r@ == or_table::<S>(),
            r.arity_spec() == 2,
    {
        let mut rows: Vec<TrainingExample<S>> = Vec::with_capacity(4);
        rows.push(row(0, 0, 0));
        rows.push(row(10, 0, 10));
        rows.push(row(0, 10, 10));
        rows.push(row(10, 10, 10));
        proof {
            assert(rows_of(rows@) =~= or_table::<S>());
        }
        Self::of_pairs(rows)
    }

    /// Makes the OR table with the first input of its second row lowered to 0.3.
    pub fn noisy_or_gate() -> (r: TrainingDataSet<S>)
        ensures
            r@ == noisy_or_table::<S>(),
            r.arity_spec() == 2,
    {
        let mut rows: Vec<TrainingExample<S>> = Vec::with_capacity(4);
        rows.push(row(0, 0, 0));
        rows.push(row(3, 0, 10));
        rows.push(row(0, 10, 10));
        rows.push(row(10, 10, 10));
        proof {
            assert(rows_of(rows@) =~= noisy_or_table::<S>());
        }
        Self::of_pairs(rows)
    }

    /// Makes the truth table of AND.
    pub fn and_gate() -> (r: TrainingDataSet<S>)
        ensures
            r@ == and_table::<S>(),
            r.arity_spec() == 2,
    {
        let mut rows: Vec<TrainingExample<S>> = Vec::with_capacity(4);
        rows.push(row(0, 0, 0));
        rows.push(row(10, 0, 0));
        rows.push(row(0, 10, 0));
        rows.push(row(10, 10, 10));
        proof {
            assert(rows_of(rows@) =~= and_table::<S>());
        }
        Self::of_pairs(rows)
    }

    /// Makes the AND table with two more rows, for the first inputs 0.3 and 5.
    pub fn noisy_and_gate() -> (r: TrainingDataSet<S>)
        ensures
            r@ == noisy_and_table::<S>(),
            r.arity_spec() == 2,
    {
        let mut rows: Vec<TrainingExample<S>> = Vec::with_capacity(6);
        rows.push(row(0, 0, 0));
        rows.push(row(3, 0, 0));
        rows.push(row(50, 0, 0));
        rows.push(row(10, 0, 0));
        rows.push(row(0, 10, 0));
        rows.push(row(10, 10, 10));
        proof {
            assert(rows_of(rows@) =~= noisy_and_table::<S>());
        }
        Self::of_pairs(rows)
    }

    /// Makes the truth table of NAND.
    pub fn nand_gate() -> (r: TrainingDataSet<S>)
        ensures
            r@ == nand_table::<S>(),
            r.arity_spec() == 2,
    {
        let mut rows: Vec<TrainingExample<S>> = Vec::with_capacity(4);
        rows.push(row(0, 0, 10));
        rows.push(row(10, 0, 10));
        rows.push(row(0, 10, 10));
        rows.push(row(10, 10, 0));
        proof {
            assert(rows_of(rows@) =~= nand_table::<S>());
        }
        Self::of_pairs(rows)
    }

    /// Makes the truth table of XOR.
    pub fn xor_gate() -> (r: TrainingDataSet<S>)
        ensures
            r@ == xor_table::<S>(),
            r.arity_spec() == 2,
    {
        let mut rows: Vec<TrainingExample<S>> = Vec::with_capacity(4);
        rows.push(row(0, 0, 0));
        rows.push(row(10, 0, 10));
        rows.push(row(0, 10, 10));
        rows.push(row(10, 10, 0));
        proof {
            assert(rows_of(rows@) =~= xor_table::<S>());
        }
        Self::of_pairs(rows)
    }

    /// Makes the table of the first five whole numbers and their doubles.
    pub fn doubling() -> (r: TrainingDataSet<S>)
        ensures
            r@ == doubling_table::<S>(),
            r.arity_spec() == 1,
    {
        let mut rows: Vec<TrainingExample<S>> = Vec::with_capacity(5);
        rows.push(whole_row(0, 0));
        rows.push(whole_row(1, 2));
        rows.push(whole_row(2, 4));
        rows.push(whole_row(3, 6));
        rows.push(whole_row(4, 8));
        proof {
            assert(rows_of(rows@) =~= doubling_table::<S>());
        }
        TrainingDataSet { arity: 1, examples: rows }
    }
}

} // verus!
