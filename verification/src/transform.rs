//! The model transform stack.
//!
//! An ordered, non-empty sequence of matrices.  The bottom entry is never
//! popped, so the stack's length is at least 1 at all times; the current
//! transform is the last element.

use vstd::prelude::*;
use crate::matrix::Mat4;

verus! {

/// The stack of model transform matrices.
#[derive(Debug)]
pub struct TransformStack {
    /// The matrices, bottom first.  Never empty.
    pub mats: Vec<Mat4>,
}

impl View for TransformStack {
    type V = Seq<Mat4>;

    open spec fn view(&self) -> Seq<Mat4> {
        self.mats@
    }
}

impl TransformStack {
    /// Non-empty, with every entry small enough for further products.
    pub open spec fn wf(self) -> bool {
        &&& self@.len() >= 1
        &&& forall|i: int| 0 <= i < self@.len() ==> (#[trigger] self@[i]).fits()
    }

    /// The current transform: the top (last) element.
    pub open spec fn top(self) -> Mat4 {
        self@.last()
    }

    /// A fresh stack holding only the identity transform.
    pub fn new() -> (s: TransformStack)
        ensures
            s.wf(),
            s@.len() == 1,
            s@[0] == Mat4::identity_spec(),
    {
        let mut mats: Vec<Mat4> = Vec::new();
        mats.push(Mat4::identity());
        TransformStack { mats }
    }

    /// Pushes a matrix on top of the stack.
    pub fn push(&mut self, t: Mat4)
        requires
            old(self).wf(),
            t.fits(),
        ensures
            final(self).wf(),
            final(self)@ == apply_op(old(self)@, StackOp::Push(t)),
            final(self)@ == old(self)@.push(t),
    {
        self.mats.push(t);
    }

    /// Removes the top of the stack, unless the stack has exactly one
    /// element, in which case nothing happens.
    pub fn pop(&mut self)
        requires
            old(self).wf(),
        ensures
            final(self).wf(),
            final(self)@ == apply_op(old(self)@, StackOp::Pop),
            old(self)@.len() > 1 ==> final(self)@ == old(self)@.drop_last(),
            old(self)@.len() == 1 ==> final(self)@ == old(self)@,
    {
        if self.mats.len() > 1 {
            let _ = self.mats.pop();
        }
    }

    /// Overwrites the top of the stack.
    pub fn set(&mut self, t: Mat4)
        requires
            old(self).wf(),
            t.fits(),
        ensures
            final(self).wf(),
            final(self)@ == old(self)@.update(old(self)@.len() - 1, t),
            final(self)@.len() == old(self)@.len(),
            final(self).top() == t,
    {
        let i = self.mats.len() - 1;
        self.mats[i] = t;
    }

    /// Returns the current (top) transform by value.
    pub fn current(&self) -> (t: Mat4)
        requires
            self.wf(),
        ensures
            t == self.top(),
            t.fits(),
    {
        self.mats[self.mats.len() - 1]
    }

    /// The number of matrices on the stack.
    pub fn depth(&self) -> (n: usize)
        ensures
            n == self@.len(),
    {
        self.mats.len()
    }
}

/// One operation on the transform stack.
pub enum StackOp {
    /// Push the given matrix.
    Push(Mat4),
    /// Pop the top, a no-op on a one-element stack.
    Pop,
}

/// The effect of one stack operation on the stack contents.
pub open spec fn apply_op(s: Seq<Mat4>, op: StackOp) -> Seq<Mat4> {
    match op {
        StackOp::Push(m) => s.push(m),
        StackOp::Pop => if s.len() > 1 {
            s.drop_last()
        } else {
            s
        },
    }
}

/// The effect of a whole sequence of stack operations, applied in order.
pub open spec fn apply_ops(s: Seq<Mat4>, ops: Seq<StackOp>) -> Seq<Mat4>
    decreases ops.len(),
{
    if ops.len() == 0 {
        s
    } else {
        apply_ops(apply_op(s, ops[0]), ops.subrange(1, ops.len() as int))
    }
}

/// For every sequence of push and pop operations, a stack that starts
/// non-empty stays non-empty: the bottom entry is never popped.
pub proof fn lemma_stack_never_empty(s: Seq<Mat4>, ops: Seq<StackOp>)
    requires
        s.len() >= 1,
    ensures
        apply_ops(s, ops).len() >= 1,
    decreases ops.len(),
{
    if ops.len() > 0 {
        lemma_stack_never_empty(apply_op(s, ops[0]), ops.subrange(1, ops.len() as int));
    }
}

} // verus!
