//! The kernel: what one of its units reads, combines and writes.
use vstd::prelude::*;
use crate::ir::FuseArg;

verus! {

/// The arithmetic of the element type, as the host provides it.
pub struct Arithmetic<T, M, A> {
    /// The value that a sum starts from.
    pub zero: T,
    /// The product of two elements.
    pub times: M,
    /// The sum of two elements.
    pub plus: A,
}

impl<T, M: Fn(T, T) -> T, A: Fn(T, T) -> T> Arithmetic<T, M, A> {
    /// Products and sums are defined on all elements.
    pub open spec fn total(self) -> bool {
        &&& forall|x: T, y: T| #[trigger] call_requires(self.times, (x, y))
        &&& forall|x: T, y: T| #[trigger] call_requires(self.plus, (x, y))
    }

    /// `sum` is an outcome of adding `value` times `weight` to `before`.
    pub open spec fn adds_product(self, before: T, value: T, weight: T, sum: T) -> bool {
        exists|product: T|
            #![trigger call_ensures(self.times, (value, weight), product)]
            call_ensures(self.times, (value, weight), product) && call_ensures(
                self.plus,
                (before, product),
                sum,
            )
    }

    /// `sums` are the partial sums of the products of the first `terms` elements of `values`
    /// and `weights`: the first is zero, and each next one adds one product.
    pub open spec fn partial_sums(
        self,
        values: Seq<T>,
        weights: Seq<T>,
        terms: nat,
        sums: Seq<T>,
    ) -> bool {
        &&& sums.len() == terms + 1
        &&& sums[0] == self.zero
        &&& forall|k: int|
            #![trigger values[k]]
            0 <= k < terms ==> self.adds_product(sums[k], values[k], weights[k], sums[k + 1])
    }

    /// `sum` is an outcome of starting from zero and adding the products of the first
    /// `terms` elements of `values` and `weights`, in order.
    pub open spec fn accumulates(
        self,
        values: Seq<T>,
        weights: Seq<T>,
        terms: nat,
        sum: T,
    ) -> bool {
        exists|sums: Seq<T>|
            #![trigger self.partial_sums(values, weights, terms, sums)]
            self.partial_sums(values, weights, terms, sums) && sums[terms as int] == sum
    }
}

/// The position of an element of a matrix with `factors` columns, stored row after row.
pub open spec fn position_of(factors: nat, row: int, column: int) -> int {
    row * factors + column
}

/// Row `row` of a matrix with `factors` columns, stored row after row.
pub open spec fn matrix_row<T>(matrix: Seq<T>, factors: nat, row: int) -> Seq<T> {
    Seq::new(factors, |k: int| matrix[position_of(factors, row, k)])
}

/// `values` are outcomes of reading the `factors` elements of row `path`.
pub open spec fn reads_path<T, R: Fn(usize) -> T>(
    read: R,
    factors: nat,
    path: int,
    values: Seq<T>,
) -> bool {
    &&& values.len() == factors
    &&& forall|k: int|
        #![trigger values[k]]
        0 <= k < factors ==> call_ensures(
            read,
            (position_of(factors, path, k) as usize,),
            values[k],
        )
}

/// Row `path` of `output` is the correlation of row `path` of what `read` gives: its element
/// `j` accumulates the first `j + 1` elements of that row, weighted by the first `j + 1`
/// elements of row `j` of `lower`.
pub open spec fn correlates_path<T, R: Fn(usize) -> T, M: Fn(T, T) -> T, A: Fn(T, T) -> T>(
    arithmetic: Arithmetic<T, M, A>,
    read: R,
    lower: Seq<T>,
    factors: nat,
    path: int,
    output: Seq<T>,
) -> bool {
    exists|values: Seq<T>|
        #![trigger reads_path(read, factors, path, values)]
        reads_path(read, factors, path, values) && forall|j: int|
            #![trigger matrix_row(lower, factors, j)]
            0 <= j < factors ==> arithmetic.accumulates(
                values,
                matrix_row(lower, factors, j),
                (j + 1) as nat,
                matrix_row(output, factors, path)[j],
            )
}

/// What the unit at `pos` does to the output: it correlates row `pos` and leaves every
/// other row alone, or leaves all of it alone if there is no such row.
pub open spec fn unit_effect<T, R: Fn(usize) -> T, M: Fn(T, T) -> T, A: Fn(T, T) -> T>(
    arithmetic: Arithmetic<T, M, A>,
    read: R,
    lower: Seq<T>,
    factors: nat,
    paths: nat,
    pos: int,
    before: Seq<T>,
    after: Seq<T>,
) -> bool {
    &&& after.len() == before.len()
    &&& pos < paths ==> correlates_path(arithmetic, read, lower, factors, pos, after)
    &&& forall|i: int|
        0 <= i < before.len() && !(pos < paths && pos * factors <= i < pos * factors + factors)
            ==> #[trigger] after[i] == before[i]
}

/// The input buffer that holds the lower-triangular matrix. There is one only if the
/// argument is an input.
pub fn lower_as_slice<'a, T>(inputs: &'a Vec<Vec<T>>, lower: FuseArg) -> (matrix: &'a Vec<T>)
    requires
        lower matches FuseArg::Input(pos) && pos < inputs@.len(),
    ensures
        *matrix == inputs@[lower->Input_0 as int],
{
    match lower {
        FuseArg::Input(pos) => &inputs[pos],
        FuseArg::Other(_) => {
            assert(false);
            &inputs[0]
        },
    }
}

impl<T, M: Fn(T, T) -> T, A: Fn(T, T) -> T> Arithmetic<T, M, A> {
    /// A sum depends on no more than the elements that it adds up.
    pub proof fn lemma_accumulates_prefix(
        self,
        values: Seq<T>,
        weights: Seq<T>,
        other_values: Seq<T>,
        other_weights: Seq<T>,
        terms: nat,
        sum: T,
    )
        requires
            forall|k: int| 0 <= k < terms ==> #[trigger] other_values[k] == values[k],
            forall|k: int| 0 <= k < terms ==> #[trigger] other_weights[k] == weights[k],
            self.accumulates(values, weights, terms, sum),
        ensures
            self.accumulates(other_values, other_weights, terms, sum),
    {
        let sums = choose|sums: Seq<T>|
            #![trigger self.partial_sums(values, weights, terms, sums)]
            self.partial_sums(values, weights, terms, sums) && sums[terms as int] == sum;
        assert forall|k: int| #![trigger other_values[k]] 0 <= k < terms implies self.adds_product(
            sums[k],
            other_values[k],
            other_weights[k],
            sums[k + 1],
        ) by {
            assert(self.adds_product(sums[k], values[k], weights[k], sums[k + 1]));
        }
        assert(self.partial_sums(other_values, other_weights, terms, sums));
    }

    /// Adding one more product makes a sum of one more term.
    proof fn lemma_accumulates_step(
        self,
        values: Seq<T>,
        weights: Seq<T>,
        terms: nat,
        before: T,
        sum: T,
    )
        requires
            self.accumulates(values, weights, terms, before),
            self.adds_product(before, values[terms as int], weights[terms as int], sum),
        ensures
            self.accumulates(values, weights, terms + 1, sum),
    {
        let sums = choose|sums: Seq<T>|
            #![trigger self.partial_sums(values, weights, terms, sums)]
            self.partial_sums(values, weights, terms, sums) && sums[terms as int] == before;
        let more = sums.push(sum);
        assert forall|k: int| #![trigger values[k]] 0 <= k < terms + 1 implies self.adds_product(
            more[k],
            values[k],
            weights[k],
            more[k + 1],
        ) by {
            if k < terms {
                assert(self.adds_product(sums[k], values[k], weights[k], sums[k + 1]));
            }
        }
        assert(self.partial_sums(values, weights, terms + 1, more));
    }

    /// Adding up nothing gives zero.
    proof fn lemma_accumulates_nothing(self, values: Seq<T>, weights: Seq<T>)
        ensures
            self.accumulates(values, weights, 0, self.zero),
    {
        assert(self.partial_sums(values, weights, 0, seq![self.zero]));
    }
}

/// The position of column `column` of row `row` lies within the rows.
pub proof fn lemma_position_in_rows(row: int, column: int, rows: int, factors: int)
    by (nonlinear_arith)
    requires
        0 <= row < rows,
        0 <= column < factors,
    ensures
        0 <= row * factors + column < rows * factors,
        row * factors + factors <= rows * factors,
{
}

/// How many terms the sum at `row` has once the columns below `columns` are done.
spec fn terms_done(columns: int, row: int) -> nat {
    if columns <= row {
        columns as nat
    } else {
        (row + 1) as nat
    }
}

/// The kernel, as the unit at `pos` runs it. `read` gives the element of the independent
/// values at a position, fused producers applied; `output` is written row after row.
pub fn lower_triangular_correlate_fused<
    T: Copy,
    R: Fn(usize) -> T,
    M: Fn(T, T) -> T,
    A: Fn(T, T) -> T,
>(
    inputs: &Vec<Vec<T>>,
    output: &mut Vec<T>,
    read: &R,
    lower: FuseArg,
    arithmetic: &Arithmetic<T, M, A>,
    factors: usize,
    paths: usize,
    pos: usize,
)
    requires
        arithmetic.total(),
        lower matches FuseArg::Input(input) && input < inputs@.len(),
        pos < paths ==> {
            &&& inputs@[lower->Input_0 as int].len() >= factors * factors
            &&& old(output).len() >= pos * factors + factors
            &&& forall|position: usize|
                pos * factors <= position < pos * factors + factors ==> #[trigger] call_requires(
                    *read,
                    (position,),
                )
        },
    ensures
        unit_effect(
            *arithmetic,
            *read,
            inputs@[lower->Input_0 as int]@,
            factors as nat,
            paths as nat,
            pos as int,
            old(output)@,
            final(output)@,
        ),
{
    if pos < paths {
        let lower_values = lower_as_slice(inputs, lower);
        let ghost weights = lower_values@;
        let mut acc: Vec<T> = Vec::new();
        let mut j: usize = 0;
        while j < factors
            invariant
                j <= factors,
                acc@.len() == j,
                forall|i: int| 0 <= i < j ==> #[trigger] acc@[i] == arithmetic.zero,
            decreases factors - j,
        {
            acc.push(arithmetic.zero);
            j += 1;
        }

        let ghost mut values: Seq<T> = Seq::empty();
        proof {
            assert forall|i: int| #![trigger acc@[i]] 0 <= i < factors implies arithmetic.accumulates(
                values,
                matrix_row(weights, factors as nat, i),
                0,
                acc@[i],
            ) by {
                arithmetic.lemma_accumulates_nothing(
                    values,
                    matrix_row(weights, factors as nat, i),
                );
            }
        }
        let mut k: usize = 0;
        while k < factors
            invariant
                k <= factors,
                pos < paths,
                arithmetic.total(),
                forall|position: usize|
                    pos * factors <= position < pos * factors + factors ==> #[trigger] call_requires(
                        *read,
                        (position,),
                    ),
                weights == lower_values@,
                lower_values.len() >= factors * factors,
                output.len() >= pos * factors + factors,
                acc@.len() == factors,
                values.len() == k,
                forall|c: int|
                    #![trigger values[c]]
                    0 <= c < k ==> call_ensures(
                        *read,
                        ((pos * factors + c) as usize,),
                        values[c],
                    ),
                forall|i: int|
                    #![trigger acc@[i]]
                    0 <= i < factors ==> arithmetic.accumulates(
                        values,
                        matrix_row(weights, factors as nat, i),
                        terms_done(k as int, i),
                        acc@[i],
                    ),
            decreases factors - k,
        {
            let read_pos = pos * factors + k;
            let z = read(read_pos);
            let ghost before = values;
            proof {
                values = values.push(z);
                assert forall|i: int| #![trigger acc@[i]] 0 <= i < factors implies arithmetic.accumulates(
                    values,
                    matrix_row(weights, factors as nat, i),
                    terms_done(k as int, i),
                    acc@[i],
                ) by {
                    let row = matrix_row(weights, factors as nat, i);
                    arithmetic.lemma_accumulates_prefix(
                        before,
                        row,
                        values,
                        row,
                        terms_done(k as int, i),
                        acc@[i],
                    );
                }
            }

            j = k;
            while j < factors
                invariant
                    k <= j <= factors,
                    k < factors,
                    arithmetic.total(),
                    weights == lower_values@,
                    lower_values.len() >= factors * factors,
                    acc@.len() == factors,
                    values.len() == k + 1,
                    values[k as int] == z,
                    forall|i: int|
                        #![trigger acc@[i]]
                        0 <= i < factors ==> arithmetic.accumulates(
                            values,
                            matrix_row(weights, factors as nat, i),
                            terms_done(
                                if i < j {
                                    k + 1
                                } else {
                                    k as int
                                },
                                i,
                            ),
                            acc@[i],
                        ),
                decreases factors - j,
            {
                proof {
                    lemma_position_in_rows(j as int, k as int, factors as int, factors as int);
                }
                let l = lower_values[j * factors + k];
                let product = (arithmetic.times)(z, l);
                let sum = (arithmetic.plus)(acc[j], product);
                proof {
                    let row = matrix_row(weights, factors as nat, j as int);
                    assert(arithmetic.accumulates(values, row, k as nat, acc@[j as int]));
                    assert(arithmetic.adds_product(acc@[j as int], values[k as int], row[k as int], sum));
                    arithmetic.lemma_accumulates_step(values, row, k as nat, acc@[j as int], sum);
                }
                acc.set(j, sum);
                j += 1;
            }
            k += 1;
        }

        j = 0;
        while j < factors
            invariant
                j <= factors,
                pos < paths,
                acc@.len() == factors,
                output@.len() == old(output)@.len(),
                output.len() >= pos * factors + factors,
                forall|i: int|
                    0 <= i < output@.len() && !(pos * factors <= i < pos * factors + j)
                        ==> #[trigger] output@[i] == old(output)@[i],
                forall|i: int|
                    #![trigger acc@[i]]
                    0 <= i < j ==> output@[pos * factors + i] == acc@[i],
            decreases factors - j,
        {
            let write_pos = pos * factors + j;
            output.set(write_pos, acc[j]);
            j += 1;
        }
        proof {
            assert(reads_path(*read, factors as nat, pos as int, values));
            assert forall|i: int|
                #![trigger matrix_row(weights, factors as nat, i)]
                0 <= i < factors implies arithmetic.accumulates(
                values,
                matrix_row(weights, factors as nat, i),
                (i + 1) as nat,
                matrix_row(output@, factors as nat, pos as int)[i],
            ) by {
                assert(matrix_row(output@, factors as nat, pos as int)[i] == acc@[i]);
            }
        }
    }
}

} // verus!
