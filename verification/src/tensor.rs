//! Typed tensor values for the model's integer inputs.
//!
//! The inference runtime works on opaque multi-dimensional tensors; the
//! engine's own inputs are simple enough to model exactly: an element kind,
//! a shape vector, and a flat buffer whose length must equal the product of
//! the dimensions.  Constructors validate that count and answer with
//! `Error::TensorShapeError` instead of trusting the caller.

use vstd::arithmetic::mul::{lemma_mul_inequality, lemma_mul_is_associative};
use vstd::prelude::*;

use crate::error::Error;

verus! {

/// Element count that a shape declares: the product of its dimensions
/// (one, for the empty shape).
pub open spec fn seq_product(s: Seq<usize>) -> int
    decreases s.len(),
{
    if s.len() == 0 {
        1
    } else {
        seq_product(s.drop_last()) * s.last()
    }
}

proof fn lemma_product_zero(s: Seq<usize>, j: int)
    requires
        0 <= j < s.len(),
        s[j] == 0,
    ensures
        seq_product(s) == 0,
    decreases s.len(),
{
    if j < s.len() - 1 {
        lemma_product_zero(s.drop_last(), j);
        assert(seq_product(s) == 0 * s.last());
    } else {
        assert(seq_product(s) == seq_product(s.drop_last()) * 0);
    }
}

proof fn lemma_product_pos(s: Seq<usize>)
    requires
        forall|j: int| 0 <= j < s.len() ==> s[j] >= 1,
    ensures
        seq_product(s) >= 1,
    decreases s.len(),
{
    if s.len() > 0 {
        lemma_product_pos(s.drop_last());
        assert(seq_product(s.drop_last()) * s.last() >= 1) by (nonlinear_arith)
            requires
                seq_product(s.drop_last()) >= 1,
                s.last() >= 1,
        ;
    }
}

proof fn lemma_product_app(a: Seq<usize>, b: Seq<usize>)
    ensures
        seq_product(a + b) == seq_product(a) * seq_product(b),
    decreases b.len(),
{
    if b.len() == 0 {
        assert(a + b =~= a);
    } else {
        lemma_product_app(a, b.drop_last());
        assert((a + b).drop_last() =~= a + b.drop_last());
        lemma_mul_is_associative(seq_product(a), seq_product(b.drop_last()), b.last() as int);
    }
}

/// The declared element count, or `None` when it exceeds `usize::MAX`
/// (in which case no buffer can match it).
fn checked_product(shape: &Vec<usize>) -> (r: Option<usize>)
    ensures
        r matches Some(p) ==> p as int == seq_product(shape@),
        r is None ==> seq_product(shape@) > usize::MAX,
{
    let n = shape.len();
    let mut i: usize = 0;
    while i < n
        invariant
            n == shape@.len(),
            i <= n,
            forall|j: int| 0 <= j < i ==> shape@[j] >= 1,
        decreases n - i,
    {
        if shape[i] == 0 {
            proof {
                lemma_product_zero(shape@, i as int);
            }
            return Some(0);
        }
        i += 1;
    }
    let mut acc: usize = 1;
    i = 0;
    while i < n
        invariant
            n == shape@.len(),
            i <= n,
            forall|j: int| 0 <= j < n ==> shape@[j] >= 1,
            acc as int == seq_product(shape@.take(i as int)),
        decreases n - i,
    {
        let d = shape[i];
        proof {
            assert(shape@.take(i + 1).drop_last() =~= shape@.take(i as int));
            assert(shape@.take(i + 1).last() == shape@[i as int]);
        }
        match acc.checked_mul(d) {
            Some(v) => {
                acc = v;
            }
            None => {
                proof {
                    assert(shape@ =~= shape@.take(i + 1) + shape@.skip(i + 1));
                    lemma_product_app(shape@.take(i + 1), shape@.skip(i + 1));
                    lemma_product_pos(shape@.skip(i + 1));
                    lemma_mul_inequality(
                        1,
                        seq_product(shape@.skip(i + 1)),
                        seq_product(shape@.take(i + 1)),
                    );
                }
                return None;
            }
        }
        i += 1;
    }
    proof {
        assert(shape@.take(n as int) =~= shape@);
    }
    Some(acc)
}

/// A rank-n tensor of signed 64-bit integers (token identifiers).
#[derive(Debug)]
pub struct TensorI64 {
    pub shape: Vec<usize>,
    pub data: Vec<i64>,
}

/// A rank-n tensor of signed 8-bit integers (attention-mask entries).
#[derive(Debug)]
pub struct TensorI8 {
    pub shape: Vec<usize>,
    pub data: Vec<i8>,
}

impl TensorI64 {
    /// The flat buffer holds exactly as many elements as the shape declares.
    pub open spec fn wf(&self) -> bool {
        seq_product(self.shape@) == self.data@.len() as int
    }

    /// Builds a tensor from a declared shape and a flat buffer; fails with
    /// `TensorShapeError` if and only if the element count does not match
    /// the shape.
    pub fn from_shape_vec(shape: Vec<usize>, data: Vec<i64>) -> (r: Result<TensorI64, Error>)
        ensures
            seq_product(shape@) == data@.len() as int ==> (r matches Ok(t) && t.shape@ == shape@
                && t.data@ == data@ && t.wf()),
            seq_product(shape@) != data@.len() as int ==> r == Err::<TensorI64, Error>(
                Error::TensorShapeError,
            ),
    {
        let len = data.len();
        match checked_product(&shape) {
            Some(p) => {
                if p == len {
                    Ok(TensorI64 { shape, data })
                } else {
                    Err(Error::TensorShapeError)
                }
            },
            None => Err(Error::TensorShapeError),
        }
    }
}

impl TensorI8 {
    /// The flat buffer holds exactly as many elements as the shape declares.
    pub open spec fn wf(&self) -> bool {
        seq_product(self.shape@) == self.data@.len() as int
    }

    /// Builds a tensor from a declared shape and a flat buffer; fails with
    /// `TensorShapeError` if and only if the element count does not match
    /// the shape.
    pub fn from_shape_vec(shape: Vec<usize>, data: Vec<i8>) -> (r: Result<TensorI8, Error>)
        ensures
            seq_product(shape@) == data@.len() as int ==> (r matches Ok(t) && t.shape@ == shape@
                && t.data@ == data@ && t.wf()),
            seq_product(shape@) != data@.len() as int ==> r == Err::<TensorI8, Error>(
                Error::TensorShapeError,
            ),
    {
        let len = data.len();
        match checked_product(&shape) {
            Some(p) => {
                if p == len {
                    Ok(TensorI8 { shape, data })
                } else {
                    Err(Error::TensorShapeError)
                }
            },
            None => Err(Error::TensorShapeError),
        }
    }
}

proof fn lemma_product_row(n: usize)
    ensures
        seq_product(seq![1usize, n]) == n,
{
    let s = seq![1usize, n];
    assert(s.drop_last() =~= seq![1usize]);
    assert(seq![1usize].drop_last() =~= Seq::<usize>::empty());
    assert(seq_product(Seq::<usize>::empty()) == 1);
    assert(seq_product(seq![1usize]) == 1);
    assert(seq_product(s) == seq_product(seq![1usize]) * n);
}

/// Materializes a token-identifier sequence as a rank-2 tensor of shape
/// `[1, len]`; the shape is derived from the length, so this never fails.
pub fn create_tensor_i64(data: &Vec<i64>) -> (r: Result<TensorI64, Error>)
    ensures
        r matches Ok(t) && t.shape@ == seq![1usize, data@.len() as usize] && t.data@ == data@
            && t.wf(),
{
    let shape: Vec<usize> = vec![1, data.len()];
    let buf = clone_i64_vec(data);
    proof {
        lemma_product_row(data@.len() as usize);
        assert(shape@ =~= seq![1usize, data@.len() as usize]);
    }
    Ok(TensorI64 { shape, data: buf })
}

/// Materializes an attention mask as a rank-2 tensor of shape `[1, len]`;
/// the shape is derived from the length, so this never fails.
pub fn create_tensor_i8(data: &Vec<i8>) -> (r: Result<TensorI8, Error>)
    ensures
        r matches Ok(t) && t.shape@ == seq![1usize, data@.len() as usize] && t.data@ == data@
            && t.wf(),
{
    let shape: Vec<usize> = vec![1, data.len()];
    let buf = clone_i8_vec(data);
    proof {
        lemma_product_row(data@.len() as usize);
        assert(shape@ =~= seq![1usize, data@.len() as usize]);
    }
    Ok(TensorI8 { shape, data: buf })
}

fn clone_i64_vec(data: &Vec<i64>) -> (r: Vec<i64>)
    ensures
        r@ == data@,
{
    let mut out: Vec<i64> = Vec::new();
    let mut i: usize = 0;
    while i < data.len()
        invariant
            i <= data@.len(),
            out@ == data@.take(i as int),
        decreases data@.len() - i,
    {
        out.push(data[i]);
        i += 1;
        proof {
            assert(out@ =~= data@.take(i as int));
        }
    }
    proof {
        assert(data@.take(data@.len() as int) =~= data@);
    }
    out
}

fn clone_i8_vec(data: &Vec<i8>) -> (r: Vec<i8>)
    ensures
        r@ == data@,
{
    let mut out: Vec<i8> = Vec::new();
    let mut i: usize = 0;
    while i < data.len()
        invariant
            i <= data@.len(),
            out@ == data@.take(i as int),
        decreases data@.len() - i,
    {
        out.push(data[i]);
        i += 1;
        proof {
            assert(out@ =~= data@.take(i as int));
        }
    }
    proof {
        assert(data@.take(data@.len() as int) =~= data@);
    }
    out
}

} // verus!
