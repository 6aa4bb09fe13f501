//! A pool of identifiers: those handed back are handed out again before a
//! new one is made.

use crossbeam::stack::TreiberStack;
use vstd::prelude::*;

verus! {

/// `crossbeam::stack::TreiberStack`, a concurrent stack. The proofs see
/// nothing inside it: what it holds goes by a name, of which only the
/// functions below that call into it speak.
#[verifier::external_type_specification]
#[verifier::external_body]
#[verifier::reject_recursive_types(T)]
pub struct ExTreiberStack<T>(TreiberStack<T>);

/// What a stack of identifiers holds, the top last.
pub uninterp spec fn stacked(stack: TreiberStack<u32>) -> Seq<u32>;

/// `TreiberStack::new`: a stack that holds nothing.
#[verifier::external_body]
fn stack_new() -> (fresh: TreiberStack<u32>)
    ensures
        stacked(fresh).len() == 0,
{
    TreiberStack::new()
}

/// `TreiberStack::push`: `id` becomes the top.
#[verifier::external_body]
fn stack_push(stack: &mut TreiberStack<u32>, id: u32)
    ensures
        stacked(*final(stack)) == stacked(*old(stack)).push(id),
{
    stack.push(id)
}

/// `TreiberStack::try_pop`: takes the top off and hands it out; nothing
/// where the stack holds nothing.
#[verifier::external_body]
fn stack_try_pop(stack: &mut TreiberStack<u32>) -> (top: Option<u32>)
    ensures
        top is None <==> stacked(*old(stack)).len() == 0,
        top is None ==> stacked(*final(stack)) == stacked(*old(stack)),
        top matches Some(id) ==> id == stacked(*old(stack)).last() && stacked(*final(stack))
            == stacked(*old(stack)).drop_last(),
{
    stack.try_pop()
}

/// Identifiers from 1 to a capacity, each in use by at most one holder.
pub struct IndexPool {
    max_value: u32,
    current_value: u32,
    previous_values: TreiberStack<u32>,
}

impl IndexPool {
    /// The highest identifier that the pool hands out.
    pub closed spec fn capacity(&self) -> u32 {
        self.max_value
    }

    /// How many identifiers the pool has made so far.
    pub closed spec fn made(&self) -> u32 {
        self.current_value
    }

    /// The identifiers that were handed back and wait to be handed out
    /// again, the next one last.
    pub closed spec fn returned(&self) -> Seq<u32> {
        stacked(self.previous_values)
    }

    /// The pool never makes more identifiers than its capacity.
    pub open spec fn wf(&self) -> bool {
        self.made() <= self.capacity()
    }

    /// How many identifiers the pool can still hand out.
    pub open spec fn available(&self) -> int {
        self.capacity() - self.made() + self.returned().len()
    }

    /// A pool of the identifiers from 1 to `capacity`.
    pub fn with_capacity(capacity: u32) -> (pool: Self)
        ensures
            pool.wf(),
            pool.capacity() == capacity,
            pool.made() == 0,
            pool.returned().len() == 0,
    {
        IndexPool { max_value: capacity, current_value: 0, previous_values: stack_new() }
    }

    /// Hands out an identifier: the one handed back last, if any waits;
    /// else the next new one, unless the capacity is used up.
    pub fn new_id(&mut self) -> (id: Option<u32>)
        requires
            old(self).wf(),
        ensures
            final(self).wf(),
            final(self).capacity() == old(self).capacity(),
            id is None <==> old(self).available() == 0,
            id is None ==> final(self).made() == old(self).made() && final(self).returned() == old(
                self,
            ).returned(),
            id matches Some(n) ==> if old(self).returned().len() > 0 {
                &&& n == old(self).returned().last()
                &&& final(self).returned() == old(self).returned().drop_last()
                &&& final(self).made() == old(self).made()
            } else {
                &&& n == old(self).made() + 1
                &&& final(self).returned() == old(self).returned()
                &&& final(self).made() == old(self).made() + 1
            },
    {
        match stack_try_pop(&mut self.previous_values) {
            Some(id) => Some(id),
            None => {
                if self.current_value == self.max_value {
                    None
                } else {
                    self.current_value = self.current_value + 1;
                    Some(self.current_value)
                }
            },
        }
    }

    /// Takes `id` back, to be handed out again.
    pub fn return_id(&mut self, id: u32)
        requires
            old(self).wf(),
        ensures
            final(self).wf(),
            final(self).capacity() == old(self).capacity(),
            final(self).made() == old(self).made(),
            final(self).returned() == old(self).returned().push(id),
    {
        stack_push(&mut self.previous_values, id);
    }
}

} // verus!
