//! A batch of items that are taken out one by one.

use vstd::prelude::*;

verus! {

/// The items of a batch that have not been taken out yet.
#[derive(Debug)]
pub struct Batch<T> {
    items: Vec<T>,
    next: usize,
}

impl<T> View for Batch<T> {
    type V = Seq<T>;

    closed spec fn view(&self) -> Seq<T> {
        self.items@.skip(self.next as int)
    }
}

impl<T> Batch<T> {
    #[verifier::type_invariant]
    spec fn type_inv(self) -> bool {
        self.next <= self.items@.len()
    }
}

impl<T: Copy> Batch<T> {
    /// A batch of these items, in this order.
    pub fn new(items: Vec<T>) -> (batch: Batch<T>)
        ensures
            batch@ == items@,
    {
        let batch = Batch { items, next: 0 };
        assert(batch@ =~= items@);
        batch
    }

    /// Takes the next item out.
    pub fn take_next(&mut self) -> (item: Option<T>)
        ensures
            old(self)@.len() == 0 ==> item is None && final(self)@ == old(self)@,
            old(self)@.len() > 0 ==> item == Some(old(self)@[0]) && final(self)@
                == old(self)@.drop_first(),
    {
        proof {
            use_type_invariant(&*self);
        }
        if self.next < self.items.len() {
            let item = self.items[self.next];
            self.next = self.next + 1;
            assert(self@ =~= old(self)@.drop_first());
            Some(item)
        } else {
            None
        }
    }
}

} // verus!
