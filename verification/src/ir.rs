//! The parts of the operation representation that fusion decisions read.
use vstd::prelude::*;

verus! {

/// The element type of a tensor.
#[derive(Clone, Copy, Debug, PartialEq, Eq, Structural)]
pub enum DType {
    F64,
    F32,
    Flex32,
    F16,
    BF16,
    I64,
    I32,
    I16,
    I8,
    U64,
    U32,
    U16,
    U8,
    Bool,
    QFloat,
}

/// How a tensor was held when the operation that names it was registered.
#[derive(Clone, Copy, Debug, PartialEq, Eq, Structural)]
pub enum TensorStatus {
    ReadOnly,
    ReadWrite,
    NotInit,
}

/// A tensor as an operation refers to it.
#[derive(Debug)]
pub struct TensorIr {
    pub id: u64,
    pub shape: Vec<usize>,
    pub status: TensorStatus,
    pub dtype: DType,
}

/// What a [`TensorIr`] stands for.
#[verifier::ext_equal]
pub struct TensorView {
    pub id: u64,
    pub shape: Seq<usize>,
    pub status: TensorStatus,
    pub dtype: DType,
}

impl View for TensorIr {
    type V = TensorView;

    open spec fn view(&self) -> TensorView {
        TensorView { id: self.id, shape: self.shape@, status: self.status, dtype: self.dtype }
    }
}

impl Clone for TensorIr {
    fn clone(&self) -> (tensor: Self)
        ensures
            tensor@ == self@,
    {
        let shape = self.shape.clone();
        assert(shape@ =~= self.shape@);
        TensorIr { id: self.id, shape, status: self.status, dtype: self.dtype }
    }
}

/// An operation on two tensors.
#[derive(Debug)]
pub struct BinaryOpIr {
    pub lhs: TensorIr,
    pub rhs: TensorIr,
    pub out: TensorIr,
}

/// What a [`BinaryOpIr`] stands for.
#[verifier::ext_equal]
pub struct BinaryOpView {
    pub lhs: TensorView,
    pub rhs: TensorView,
    pub out: TensorView,
}

impl View for BinaryOpIr {
    type V = BinaryOpView;

    open spec fn view(&self) -> BinaryOpView {
        BinaryOpView { lhs: self.lhs@, rhs: self.rhs@, out: self.out@ }
    }
}

impl Clone for BinaryOpIr {
    fn clone(&self) -> (op: Self)
        ensures
            op@ == self@,
    {
        BinaryOpIr { lhs: self.lhs.clone(), rhs: self.rhs.clone(), out: self.out.clone() }
    }
}

impl BinaryOpView {
    /// The operation is a correlation that the fused kernel can compute: all three tensors
    /// hold 32-bit floats, the left side is a matrix, the output has its shape, and the
    /// right side is a square matrix with as many rows as the left side has columns.
    pub open spec fn is_correlation(self) -> bool {
        &&& self.lhs.dtype == DType::F32
        &&& self.rhs.dtype == DType::F32
        &&& self.out.dtype == DType::F32
        &&& self.lhs.shape.len() == 2
        &&& self.out.shape == self.lhs.shape
        &&& self.rhs.shape == seq![self.lhs.shape[1], self.lhs.shape[1]]
    }

    /// The number of rows of the left side.
    pub open spec fn paths(self) -> nat {
        self.lhs.shape[0] as nat
    }

    /// The number of columns of the left side.
    pub open spec fn factors(self) -> nat {
        self.lhs.shape[1] as nat
    }
}

/// An operation as a fuser tells operations apart.
#[derive(Debug)]
pub enum OperationIr {
    /// A lower-triangular correlation of two float tensors.
    LowerTriangularCorrelate(BinaryOpIr),
    /// The initialization of a tensor.
    Init,
    /// Any other operation, which only the traces look into.
    Other,
}

/// What an [`OperationIr`] stands for.
pub enum OperationView {
    LowerTriangularCorrelate(BinaryOpView),
    Init,
    Other,
}

impl View for OperationIr {
    type V = OperationView;

    open spec fn view(&self) -> OperationView {
        match self {
            OperationIr::LowerTriangularCorrelate(op) => OperationView::LowerTriangularCorrelate(
                op@,
            ),
            OperationIr::Init => OperationView::Init,
            OperationIr::Other => OperationView::Other,
        }
    }
}

/// An argument of a fused kernel.
#[derive(Clone, Copy, Debug, PartialEq, Eq, Structural)]
pub enum FuseArg {
    /// The input buffer at this position.
    Input(usize),
    /// An argument of another kind, by the number that the trace knows it under.
    Other(usize),
}

/// Whether two shapes are the same.
pub fn same_shape(left: &Vec<usize>, right: &Vec<usize>) -> (same: bool)
    ensures
        same == (left@ == right@),
{
    if left.len() != right.len() {
        return false;
    }
    let mut i: usize = 0;
    while i < left.len()
        invariant
            i <= left@.len(),
            left@.len() == right@.len(),
            forall|d: int| 0 <= d < i ==> left@[d] == right@[d],
        decreases left@.len() - i,
    {
        if left[i] != right[i] {
            return false;
        }
        i += 1;
    }
    assert(left@ =~= right@);
    true
}

} // verus!
