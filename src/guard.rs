use vstd::prelude::*;

use crate::reinterpret::transmute_const;

verus! {

/// Staging area for an array of `N` elements under construction.
///
/// The cursor is the number of leading slots that hold an element; the
/// remaining slots hold nothing. Elements are only ever added at the cursor,
/// one at a time. Dropping the guard drops exactly the elements it holds.
pub struct Guard<T, const N: usize> {
    staged: Vec<T>,
}

impl<T, const N: usize> Guard<T, N> {
    /// The elements staged so far, slot `i` holding the element generated
    /// for index `i`.
    pub closed spec fn view(&self) -> Seq<T> {
        self.staged@
    }

    #[verifier::type_invariant]
    spec fn cursor_in_bounds(&self) -> bool {
        self.staged@.len() <= N
    }

    /// An empty staging area: the cursor is at 0.
    pub fn new() -> (g: Self)
        ensures
            g@ == Seq::<T>::empty(),
    {
        Guard { staged: Vec::with_capacity(N) }
    }

    /// The cursor: how many leading slots hold an element.
    pub fn get_index(&self) -> (r: usize)
        ensures
            r == self@.len(),
            r <= N,
    {
        proof {
            use_type_invariant(self);
        }
        self.staged.len()
    }

    /// Stores `item` in the slot at the cursor and advances the cursor by one.
    pub fn push_unchecked(&mut self, item: T)
        requires
            old(self)@.len() < N,
        ensures
            final(self)@ == old(self)@.push(item),
    {
        proof {
            use_type_invariant(&*self);
        }
        let mut staged = Vec::new();
        std::mem::swap(&mut staged, &mut self.staged);
        staged.push(item);
        self.staged = staged;
    }

    /// Fills the slots from the cursor up to `N` with `cb(cursor)`, in
    /// increasing order of index, stopping at the first call that fails.
    ///
    /// On success every slot holds an element. On failure at index `k` the
    /// slots before `k` hold the elements generated for them and the guard
    /// holds exactly `k` elements; the error comes back unchanged.
    pub fn fill<E, F: Fn(usize) -> Result<T, E>>(&mut self, cb: &F) -> (r: Result<(), E>)
        requires
            forall|i: usize| old(self)@.len() <= i < N ==> (*cb).requires((i,)),
        ensures
            final(self)@.subrange(0, old(self)@.len() as int) == old(self)@,
            old(self)@.len() <= final(self)@.len() <= N,
            generated_ok_from(*cb, final(self)@, old(self)@.len() as int),
            r is Ok <==> final(self)@.len() == N,
            r is Err ==> (*cb).ensures((final(self)@.len() as usize,), Err(r->Err_0)),
    {
        proof {
            use_type_invariant(&*self);
        }
        while self.get_index() < N
            invariant
                forall|i: usize| old(self)@.len() <= i < N ==> (*cb).requires((i,)),
                old(self)@.len() <= self@.len() <= N,
                self@.subrange(0, old(self)@.len() as int) == old(self)@,
                generated_ok_from(*cb, self@, old(self)@.len() as int),
            decreases N - self@.len(),
        {
            let i = self.get_index();
            match cb(i) {
                Ok(item) => {
                    let ghost before = self@;
                    let ghost start = old(self)@.len() as int;
                    self.push_unchecked(item);
                    assert(self@.subrange(0, start) =~= before.subrange(0, start));
                },
                Err(e) => {
                    return Err(e);
                },
            }
        }
        Ok(())
    }

    /// Gives up construction: drops every element held, exactly once each,
    /// touches no slot past the cursor, and returns how many were dropped.
    pub fn teardown(self) -> (released: usize)
        ensures
            released == self@.len(),
    {
        let Guard { staged } = self;
        staged.len()
    }

    /// Completes construction once every slot holds an element: the staged
    /// elements become the array, in order, with none built or dropped again.
    pub fn finish(self) -> (r: [T; N])
        requires
            self@.len() == N,
        ensures
            r@ == self@,
    {
        let Guard { staged } = self;
        transmute_const(staged)
    }
}

/// Slots `from` onward of `s` each hold a value that `cb` may return as
/// `Ok` for that slot's index.
pub open spec fn generated_ok_from<T, E, F: Fn(usize) -> Result<T, E>>(
    cb: F,
    s: Seq<T>,
    from: int,
) -> bool {
    forall|i: int| from <= i < s.len() ==> cb.ensures((i as usize,), Ok(#[trigger] s[i]))
}

} // verus!
