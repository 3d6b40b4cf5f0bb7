//! A cursor over the display texts of a report's cause chain.
//!
//! The chain is materialized once when the cursor is created and can then be
//! consumed one element at a time, from the front, from the back, or in
//! reverse order.

use vstd::prelude::*;

verus! {

/// A cursor over a cause chain, walkable from either end.
pub struct Chain {
    texts: Vec<String>,
    front: usize,
    back: usize,
    reversed: bool,
}

impl Chain {
    /// The cursor's window lies inside its backing texts.
    pub closed spec fn wf(self) -> bool {
        self.front <= self.back && self.back <= self.texts.len()
    }

    /// The elements not yet consumed, in the order this cursor yields them.
    pub closed spec fn remaining(self) -> Seq<Seq<char>> {
        let window = self.texts.deep_view().subrange(self.front as int, self.back as int);
        if self.reversed {
            window.reverse()
        } else {
            window
        }
    }

    /// Builds a forward cursor over the given texts.
    pub(crate) fn new(texts: Vec<String>) -> (c: Chain)
        ensures
            c.wf(),
            c.remaining() == texts.deep_view(),
    {
        let back = texts.len();
        let c = Chain { texts, front: 0, back, reversed: false };
        proof {
            assert(c.remaining() =~= c.texts.deep_view());
        }
        c
    }

    /// How many elements are left.
    pub fn len(&self) -> (n: usize)
        requires
            self.wf(),
        ensures
            n == self.remaining().len(),
    {
        self.back - self.front
    }

    /// Whether no elements are left.
    pub fn is_empty(&self) -> (b: bool)
        requires
            self.wf(),
        ensures
            b == (self.remaining().len() == 0),
    {
        self.back == self.front
    }

    /// Yields the next element, advancing the cursor; `None` once the chain
    /// is exhausted.
    pub fn next(&mut self) -> (r: Option<String>)
        requires
            old(self).wf(),
        ensures
            final(self).wf(),
            old(self).remaining().len() == 0 ==> r is None && *final(self) == *old(self),
            old(self).remaining().len() > 0 ==> (r matches Some(s) && s@ == old(
                self,
            ).remaining()[0] && final(self).remaining() == old(self).remaining().drop_first()),
    {
        if self.front < self.back {
            if !self.reversed {
                let s = self.texts[self.front].clone();
                self.front = self.front + 1;
                proof {
                    assert(self.remaining() =~= old(self).remaining().drop_first());
                }
                Some(s)
            } else {
                let s = self.texts[self.back - 1].clone();
                self.back = self.back - 1;
                proof {
                    assert(self.remaining() =~= old(self).remaining().drop_first());
                }
                Some(s)
            }
        } else {
            None
        }
    }

    /// Yields the next element from the back, shrinking the cursor; `None`
    /// once the chain is exhausted.
    pub fn next_back(&mut self) -> (r: Option<String>)
        requires
            old(self).wf(),
        ensures
            final(self).wf(),
            old(self).remaining().len() == 0 ==> r is None && *final(self) == *old(self),
            old(self).remaining().len() > 0 ==> (r matches Some(s) && s@ == old(
                self,
            ).remaining().last() && final(self).remaining() == old(self).remaining().drop_last()),
    {
        if self.front < self.back {
            if !self.reversed {
                let s = self.texts[self.back - 1].clone();
                self.back = self.back - 1;
                proof {
                    assert(self.remaining() =~= old(self).remaining().drop_last());
                }
                Some(s)
            } else {
                let s = self.texts[self.front].clone();
                self.front = self.front + 1;
                proof {
                    assert(self.remaining() =~= old(self).remaining().drop_last());
                }
                Some(s)
            }
        } else {
            None
        }
    }

    /// Turns the cursor around: the same elements, yielded in the opposite
    /// order.
    pub fn rev(self) -> (c: Chain)
        requires
            self.wf(),
        ensures
            c.wf(),
            c.remaining() == self.remaining().reverse(),
    {
        let Chain { texts, front, back, reversed } = self;
        let c = Chain { texts, front, back, reversed: !reversed };
        proof {
            assert(c.remaining() =~= self.remaining().reverse());
        }
        c
    }

    /// Consumes the cursor, collecting what it would yield.
    pub fn collect_strings(self) -> (v: Vec<String>)
        requires
            self.wf(),
        ensures
            v.deep_view() == self.remaining(),
    {
        let mut c = self;
        let mut v: Vec<String> = Vec::new();
        proof {
            assert(v.deep_view() + c.remaining() =~= self.remaining());
        }
        while !c.is_empty()
            invariant
                c.wf(),
                v.deep_view() + c.remaining() == self.remaining(),
            decreases c.remaining().len(),
        {
            match c.next() {
                Some(s) => {
                    v.push(s);
                    proof {
                        assert(v.deep_view() + c.remaining() =~= self.remaining());
                    }
                },
                None => {},
            }
        }
        proof {
            assert(v.deep_view() =~= self.remaining());
        }
        v
    }
}

} // verus!
