//! Comparison: the operators, the outcome table that defines them, and the
//! row-by-row comparison of two columns.

use crate::array::{array_cells, array_type, bool_cell, Array};
use crate::error::arrow_error::ArrowError;
use crate::schema::DataType;
use arrow::compute::kernels::cmp::{eq, gt, gt_eq, lt, lt_eq, neq};
use arrow::error::ArrowError as ArrowErr;
use std::cmp::Ordering;
use std::sync::Arc;
use vstd::prelude::*;

verus! {

/// Why a comparison of two columns was refused.
#[derive(Debug)]
#[allow(inconsistent_fields)]
pub enum Error {
    /// The operator is not defined on operands of these two types.
    InvalidComparison { lhs: DataType, rhs: DataType, op: CmpOp },
    /// The operands differ in length.
    UnequalLength { lhs: usize, rhs: usize },
}

/// One of the six comparison operators.
#[derive(Clone, Copy, Debug, PartialEq, Eq, Structural)]
pub enum CmpOp {
    Gt,
    GtEq,
    Lt,
    LtEq,
    Eq,
    NotEq,
}

/// How `a` stands to `b`.
pub open spec fn int_order(a: int, b: int) -> Ordering {
    if a < b {
        Ordering::Less
    } else if a == b {
        Ordering::Equal
    } else {
        Ordering::Greater
    }
}

impl CmpOp {
    /// The operator as it is written.
    pub open spec fn symbol(self) -> Seq<char> {
        match self {
            CmpOp::Gt => seq!['>'],
            CmpOp::GtEq => seq!['>', '='],
            CmpOp::Lt => seq!['<'],
            CmpOp::LtEq => seq!['<', '='],
            CmpOp::Eq => seq!['=', '='],
            CmpOp::NotEq => seq!['!', '='],
        }
    }

    /// The outcome table: the orderings of a left against a right operand
    /// that the operator accepts. `NotEq` accepts whatever is not `Equal`.
    pub open spec fn accepts(self, order: Ordering) -> bool {
        match (self, order) {
            (CmpOp::Gt, Ordering::Greater) => true,
            (CmpOp::GtEq, Ordering::Greater) => true,
            (CmpOp::GtEq, Ordering::Equal) => true,
            (CmpOp::Eq, Ordering::Equal) => true,
            (CmpOp::LtEq, Ordering::Equal) => true,
            (CmpOp::LtEq, Ordering::Less) => true,
            (CmpOp::Lt, Ordering::Less) => true,
            (CmpOp::NotEq, Ordering::Equal) => false,
            (CmpOp::NotEq, _) => true,
            (_, _) => false,
        }
    }

    /// Whether the operator holds of two integers.
    pub open spec fn holds(self, a: int, b: int) -> bool {
        match self {
            CmpOp::Gt => a > b,
            CmpOp::GtEq => a >= b,
            CmpOp::Lt => a < b,
            CmpOp::LtEq => a <= b,
            CmpOp::Eq => a == b,
            CmpOp::NotEq => a != b,
        }
    }

    /// `holds`, of two machine integers.
    pub open spec fn holds_of(self, a: i128, b: i128) -> bool {
        self.holds(a as int, b as int)
    }

    /// Whether the operator holds of two cell values of type `t`. Integers
    /// and booleans compare as numbers. Floats compare in the IEEE-754 partial
    /// order: the two zeros are equal, and a NaN is unequal to everything, so
    /// that with a NaN operand `NotEq` holds and no other operator does.
    pub open spec fn holds_on(self, t: DataType, a: int, b: int) -> bool {
        if t.is_float() {
            if float_is_nan(t, a) || float_is_nan(t, b) {
                self is NotEq
            } else {
                self.holds(float_rank(t, a), float_rank(t, b))
            }
        } else {
            self.holds(a, b)
        }
    }

    /// The operator holds of two integers exactly if the table accepts their
    /// ordering.
    pub proof fn holds_by_table(self, a: int, b: int)
        ensures
            self.holds(a, b) == self.accepts(int_order(a, b)),
    {
    }

    /// The operator as it is written: `>`, `>=`, `<`, `<=`, `==` or `!=`.
    pub fn as_str(&self) -> (s: &'static str)
        ensures
            s@ == self.symbol(),
    {
        proof {
            reveal_strlit(">");
            reveal_strlit(">=");
            reveal_strlit("<");
            reveal_strlit("<=");
            reveal_strlit("==");
            reveal_strlit("!=");
        }
        let s = match self {
            CmpOp::Gt => ">",
            CmpOp::GtEq => ">=",
            CmpOp::Lt => "<",
            CmpOp::LtEq => "<=",
            CmpOp::Eq => "==",
            CmpOp::NotEq => "!=",
        };
        assert(s@ =~= self.symbol());
        s
    }

    /// Looks the ordering up in the outcome table.
    pub fn eq_ord(&self, order: Ordering) -> (b: bool)
        ensures
            b == self.accepts(order),
    {
        match (self, order) {
            (CmpOp::Gt, Ordering::Greater) => true,
            (CmpOp::GtEq, Ordering::Greater) => true,
            (CmpOp::GtEq, Ordering::Equal) => true,
            (CmpOp::Eq, Ordering::Equal) => true,
            (CmpOp::LtEq, Ordering::Equal) => true,
            (CmpOp::LtEq, Ordering::Less) => true,
            (CmpOp::Lt, Ordering::Less) => true,
            (CmpOp::NotEq, Ordering::Equal) => false,
            (CmpOp::NotEq, _) => true,
            (_, _) => false,
        }
    }

    /// Tells whether the operator holds of two integers, by looking their
    /// ordering up in the outcome table.
    pub fn test(&self, a: i128, b: i128) -> (r: bool)
        ensures
            r == self.holds_of(a, b),
    {
        let order = if a < b {
            Ordering::Less
        } else if a == b {
            Ordering::Equal
        } else {
            Ordering::Greater
        };
        self.eq_ord(order)
    }

    /// Tells whether the operator holds of two cell values of type `t` (see
    /// `holds_on`).
    pub fn test_on(&self, t: DataType, a: i128, b: i128) -> (r: bool)
        requires
            t.is_float() ==> t.holds(a as int) && t.holds(b as int),
        ensures
            r == self.holds_on(t, a as int, b as int),
    {
        match t {
            DataType::Float32 => {
                let sign: i128 = 0x8000_0000;
                let infinity: i128 = 0x7f80_0000;
                self.test_floats(sign, infinity, a, b)
            },
            DataType::Float64 => {
                let sign: i128 = 0x8000_0000_0000_0000;
                let infinity: i128 = 0x7ff0_0000_0000_0000;
                self.test_floats(sign, infinity, a, b)
            },
            _ => self.test(a, b),
        }
    }

    /// The float case of `test_on`, on bit patterns whose sign bit is `sign`
    /// and whose infinity has the magnitude `infinity`.
    fn test_floats(&self, sign: i128, infinity: i128, a: i128, b: i128) -> (r: bool)
        requires
            0 < infinity < sign <= 0x8000_0000_0000_0000,
            0 <= a < 2 * sign,
            0 <= b < 2 * sign,
        ensures
            r == if magnitude(sign as int, a as int) > infinity || magnitude(
                sign as int,
                b as int,
            ) > infinity {
                *self is NotEq
            } else {
                self.holds(rank(sign as int, a as int), rank(sign as int, b as int))
            },
    {
        let a_magnitude = if a < sign {
            a
        } else {
            a - sign
        };
        let b_magnitude = if b < sign {
            b
        } else {
            b - sign
        };
        if a_magnitude > infinity || b_magnitude > infinity {
            return match self {
                CmpOp::NotEq => true,
                _ => false,
            };
        }
        let a_rank = if a < sign {
            a_magnitude
        } else {
            -a_magnitude
        };
        let b_rank = if b < sign {
            b_magnitude
        } else {
            -b_magnitude
        };
        self.test(a_rank, b_rank)
    }
}

/// The bits of a float below its sign bit.
pub open spec fn magnitude(sign: int, bits: int) -> int {
    if bits < sign {
        bits
    } else {
        bits - sign
    }
}

/// A number that orders the floats that are no NaN as IEEE-754 does: the
/// magnitude bits, negated under a set sign bit, so that both zeros are 0.
pub open spec fn rank(sign: int, bits: int) -> int {
    if bits < sign {
        bits
    } else {
        sign - bits
    }
}

/// The sign bit of a float type's bit pattern.
pub open spec fn sign_bit(t: DataType) -> int {
    if t is Float32 {
        0x8000_0000
    } else {
        0x8000_0000_0000_0000
    }
}

/// The magnitude bits of a float type's infinity; the magnitudes above it are
/// the NaNs.
pub open spec fn infinity_bits(t: DataType) -> int {
    if t is Float32 {
        0x7f80_0000
    } else {
        0x7ff0_0000_0000_0000
    }
}

/// Whether the bit pattern of a float of type `t` is a NaN.
pub open spec fn float_is_nan(t: DataType, bits: int) -> bool {
    magnitude(sign_bit(t), bits) > infinity_bits(t)
}

/// `rank` for the float type `t`.
pub open spec fn float_rank(t: DataType, bits: int) -> int {
    rank(sign_bit(t), bits)
}

/// The cells of the mask that comparing two columns of type `t` row by row
/// gives: null where either operand is null, else whether `op` holds of the
/// two values (see `holds_on`; floats compare in the IEEE-754 partial order).
pub open spec fn compare_cells(
    op: CmpOp,
    t: DataType,
    lhs: Seq<Option<int>>,
    rhs: Seq<Option<int>>,
) -> Seq<Option<int>> {
    Seq::new(
        lhs.len(),
        |i: int|
            match (lhs[i], rhs[i]) {
                (Some(a), Some(b)) => Some(bool_cell(op.holds_on(t, a, b))),
                _ => None,
            },
    )
}

/// Two columns of one numeric type and one length: what `cmp_arrays`
/// compares.
pub open spec fn comparable(lhs: Array, rhs: Array) -> bool {
    &&& lhs.dtype() == rhs.dtype()
    &&& lhs.dtype().is_numeric()
    &&& lhs.rows() == rhs.rows()
}

/// Two columns of one integer type and one length: what arrow's comparison
/// kernels are called on.
pub open spec fn integers(lhs: Array, rhs: Array) -> bool {
    &&& lhs.dtype() == rhs.dtype()
    &&& lhs.dtype().is_integer()
    &&& lhs.rows() == rhs.rows()
}

/// `arrow::compute::kernels::cmp::eq`. On two columns of one integer type and
/// one length it succeeds with a boolean column: null where either side is
/// null, else whether the two values are equal.
#[verifier::external_body]
fn kernel_eq(lhs: &Array, rhs: &Array) -> (r: Result<Array, ArrowErr>)
    requires
        integers(*lhs, *rhs),
    ensures
        match r {
            Ok(mask) => array_type(mask) == DataType::Boolean && array_cells(mask)
                == compare_cells(CmpOp::Eq, lhs.dtype(), lhs.cells(), rhs.cells()),
            Err(_) => false,
        },
{
    eq(&lhs.data, &rhs.data).map(|mask| Array { data: Arc::new(mask) })
}

/// `arrow::compute::kernels::cmp::neq`; as `kernel_eq`, for `!=`.
#[verifier::external_body]
fn kernel_neq(lhs: &Array, rhs: &Array) -> (r: Result<Array, ArrowErr>)
    requires
        integers(*lhs, *rhs),
    ensures
        match r {
            Ok(mask) => array_type(mask) == DataType::Boolean && array_cells(mask)
                == compare_cells(CmpOp::NotEq, lhs.dtype(), lhs.cells(), rhs.cells()),
            Err(_) => false,
        },
{
    neq(&lhs.data, &rhs.data).map(|mask| Array { data: Arc::new(mask) })
}

/// `arrow::compute::kernels::cmp::lt`; as `kernel_eq`, for `<`.
#[verifier::external_body]
fn kernel_lt(lhs: &Array, rhs: &Array) -> (r: Result<Array, ArrowErr>)
    requires
        integers(*lhs, *rhs),
    ensures
        match r {
            Ok(mask) => array_type(mask) == DataType::Boolean && array_cells(mask)
                == compare_cells(CmpOp::Lt, lhs.dtype(), lhs.cells(), rhs.cells()),
            Err(_) => false,
        },
{
    lt(&lhs.data, &rhs.data).map(|mask| Array { data: Arc::new(mask) })
}

/// `arrow::compute::kernels::cmp::lt_eq`; as `kernel_eq`, for `<=`.
#[verifier::external_body]
fn kernel_lt_eq(lhs: &Array, rhs: &Array) -> (r: Result<Array, ArrowErr>)
    requires
        integers(*lhs, *rhs),
    ensures
        match r {
            Ok(mask) => array_type(mask) == DataType::Boolean && array_cells(mask)
                == compare_cells(CmpOp::LtEq, lhs.dtype(), lhs.cells(), rhs.cells()),
            Err(_) => false,
        },
{
    lt_eq(&lhs.data, &rhs.data).map(|mask| Array { data: Arc::new(mask) })
}

/// `arrow::compute::kernels::cmp::gt`; as `kernel_eq`, for `>`.
#[verifier::external_body]
fn kernel_gt(lhs: &Array, rhs: &Array) -> (r: Result<Array, ArrowErr>)
    requires
        integers(*lhs, *rhs),
    ensures
        match r {
            Ok(mask) => array_type(mask) == DataType::Boolean && array_cells(mask)
                == compare_cells(CmpOp::Gt, lhs.dtype(), lhs.cells(), rhs.cells()),
            Err(_) => false,
        },
{
    gt(&lhs.data, &rhs.data).map(|mask| Array { data: Arc::new(mask) })
}

/// `arrow::compute::kernels::cmp::gt_eq`; as `kernel_eq`, for `>=`.
#[verifier::external_body]
fn kernel_gt_eq(lhs: &Array, rhs: &Array) -> (r: Result<Array, ArrowErr>)
    requires
        integers(*lhs, *rhs),
    ensures
        match r {
            Ok(mask) => array_type(mask) == DataType::Boolean && array_cells(mask)
                == compare_cells(CmpOp::GtEq, lhs.dtype(), lhs.cells(), rhs.cells()),
            Err(_) => false,
        },
{
    gt_eq(&lhs.data, &rhs.data).map(|mask| Array { data: Arc::new(mask) })
}

/// Compares two columns of one numeric type row by row.
///
/// Operands of two types, or of a type that is not numeric, are refused with
/// `InvalidComparison`, operands of two lengths with `UnequalLength`.
/// Otherwise the result is the mask of `compare_cells`. Integer columns go to
/// arrow's kernels. Float columns are compared here, in the IEEE-754 partial
/// order, since arrow's kernels order floats otherwise.
pub fn cmp_arrays(lhs: &Array, rhs: &Array, op: CmpOp) -> (r: Result<Array, crate::error::Error>)
    ensures
        lhs.dtype() != rhs.dtype() || !lhs.dtype().is_numeric() ==> r == Err::<
            Array,
            crate::error::Error,
        >(
            crate::error::Error::ComparisonError {
                source: Error::InvalidComparison { lhs: lhs.dtype(), rhs: rhs.dtype(), op },
            },
        ),
        lhs.dtype() == rhs.dtype() && lhs.dtype().is_numeric() && lhs.rows() != rhs.rows() ==> (
        r matches Err(
            crate::error::Error::ComparisonError {
                source: Error::UnequalLength { lhs: a, rhs: b },
            },
        ) && a == lhs.rows() && b == rhs.rows()),
        comparable(*lhs, *rhs) ==> (r matches Ok(mask) && mask.dtype() == DataType::Boolean
            && mask.cells() == compare_cells(op, lhs.dtype(), lhs.cells(), rhs.cells())),
{
    let lhs_type = lhs.data_type();
    let rhs_type = rhs.data_type();
    if lhs_type != rhs_type || !lhs_type.is_numeric_type() {
        return Err(
            crate::error::Error::ComparisonError {
                source: Error::InvalidComparison { lhs: lhs_type, rhs: rhs_type, op },
            },
        );
    }
    if lhs.len() != rhs.len() {
        return Err(
            crate::error::Error::ComparisonError {
                source: Error::UnequalLength { lhs: lhs.len(), rhs: rhs.len() },
            },
        );
    }
    match lhs_type {
        DataType::Float32 | DataType::Float64 => {
            return Ok(compare_rows(lhs, rhs, op));
        },
        _ => {},
    }
    let compared = match op {
        CmpOp::NotEq => kernel_neq(lhs, rhs),
        CmpOp::Eq => kernel_eq(lhs, rhs),
        CmpOp::Lt => kernel_lt(lhs, rhs),
        CmpOp::LtEq => kernel_lt_eq(lhs, rhs),
        CmpOp::Gt => kernel_gt(lhs, rhs),
        CmpOp::GtEq => kernel_gt_eq(lhs, rhs),
    };
    match compared {
        Ok(mask) => Ok(mask),
        Err(source) => Err(crate::error::Error::Arrow { source: ArrowError::from_arrow(source) }),
    }
}

/// Compares two boolean columns for equality or inequality, row by row.
///
/// Operands that are not both boolean are refused with `InvalidComparison`,
/// then operands of two lengths with `UnequalLength`, then an ordering
/// operator with `InvalidComparison`. Otherwise the result is the mask of
/// `compare_cells`.
pub fn cmp_bool_arrays(lhs: &Array, rhs: &Array, op: CmpOp) -> (r: Result<
    Array,
    crate::error::Error,
>)
    ensures
        !(lhs.dtype() is Boolean && rhs.dtype() is Boolean) || (lhs.rows() == rhs.rows() && !(op
            is Eq || op is NotEq)) ==> r == Err::<Array, crate::error::Error>(
            crate::error::Error::ComparisonError {
                source: Error::InvalidComparison { lhs: lhs.dtype(), rhs: rhs.dtype(), op },
            },
        ),
        lhs.dtype() is Boolean && rhs.dtype() is Boolean && lhs.rows() != rhs.rows() ==> (
        r matches Err(
            crate::error::Error::ComparisonError {
                source: Error::UnequalLength { lhs: a, rhs: b },
            },
        ) && a == lhs.rows() && b == rhs.rows()),
        lhs.dtype() is Boolean && rhs.dtype() is Boolean && lhs.rows() == rhs.rows() && (op is Eq
            || op is NotEq) ==> (r matches Ok(mask) && mask.dtype() == DataType::Boolean
            && mask.cells() == compare_cells(op, DataType::Boolean, lhs.cells(), rhs.cells())),
{
    let lhs_type = lhs.data_type();
    let rhs_type = rhs.data_type();
    if lhs_type != DataType::Boolean || rhs_type != DataType::Boolean {
        return Err(
            crate::error::Error::ComparisonError {
                source: Error::InvalidComparison { lhs: lhs_type, rhs: rhs_type, op },
            },
        );
    }
    if lhs.len() != rhs.len() {
        return Err(
            crate::error::Error::ComparisonError {
                source: Error::UnequalLength { lhs: lhs.len(), rhs: rhs.len() },
            },
        );
    }
    match op {
        CmpOp::Eq => Ok(compare_rows(lhs, rhs, CmpOp::Eq)),
        CmpOp::NotEq => Ok(compare_rows(lhs, rhs, CmpOp::NotEq)),
        _ => Err(
            crate::error::Error::ComparisonError {
                source: Error::InvalidComparison { lhs: lhs_type, rhs: rhs_type, op },
            },
        ),
    }
}

/// Compares two primitive columns of one type and one length row by row: null
/// where either side is null, else whether the operator holds of the two
/// values.
fn compare_rows(lhs: &Array, rhs: &Array, op: CmpOp) -> (mask: Array)
    requires
        lhs.dtype() == rhs.dtype(),
        lhs.dtype().is_primitive(),
        lhs.rows() == rhs.rows(),
    ensures
        mask.dtype() == DataType::Boolean,
        mask.cells() == compare_cells(op, lhs.dtype(), lhs.cells(), rhs.cells()),
{
    let n = lhs.len();
    let data_type = lhs.data_type();
    let mut out: Vec<Option<bool>> = Vec::with_capacity(n);
    let mut i: usize = 0;
    while i < n
        invariant
            i <= n,
            n == lhs.rows(),
            n == rhs.rows(),
            data_type == lhs.dtype(),
            data_type == rhs.dtype(),
            data_type.is_primitive(),
            out.len() == i,
            forall|k: int|
                0 <= k < i ==> #[trigger] out@[k] == match (lhs.cells()[k], rhs.cells()[k]) {
                    (Some(a), Some(b)) => Some(op.holds_on(data_type, a, b)),
                    _ => None::<bool>,
                },
        decreases n - i,
    {
        if lhs.is_null(i) || rhs.is_null(i) {
            out.push(None);
        } else {
            let a = lhs.cell_value(i);
            let b = rhs.cell_value(i);
            out.push(Some(op.test_on(data_type, a, b)));
        }
        i += 1;
    }
    let mask = Array::from_bools(out);
    proof {
        assert(mask.cells() =~= compare_cells(op, lhs.dtype(), lhs.cells(), rhs.cells()));
    }
    mask
}

} // verus!
