//! The `Slide` view: each element of a slice together with the elements
//! after it, or `None` in place of an empty rest.
use vstd::prelude::*;
use vstd::slice::slice_subrange;

verus! {

/// What one request produces from a view over `s` whose cursor stands at
/// `c`: nothing once `c` has reached the end; otherwise the element at `c`
/// and the elements after it, the latter only when there is at least one.
pub open spec fn slide_step<T>(s: Seq<T>, c: nat) -> Option<(T, Option<Seq<T>>)> {
    if c < s.len() {
        Some(
            (
                s[c as int],
                if c + 1 < s.len() {
                    Some(s.subrange(c + 1 as int, s.len() as int))
                } else {
                    None
                },
            ),
        )
    } else {
        None
    }
}

/// The cursor after one request: one further while elements remain,
/// unchanged once the end has been reached.
pub open spec fn slide_advance<T>(s: Seq<T>, c: nat) -> nat {
    if c < s.len() {
        c + 1
    } else {
        c
    }
}

/// What a produced item holds, read through its references.
pub open spec fn item_view<T>(r: Option<(&T, Option<&[T]>)>) -> Option<(T, Option<Seq<T>>)> {
    match r {
        Some((x, rest)) => Some(
            (
                *x,
                match rest {
                    Some(t) => Some(t@),
                    None => None,
                },
            ),
        ),
        None => None,
    }
}

/// Immutable view over a slice that yields each element together with the
/// slice of the elements after it.
///
/// On the last element the rest is `None` rather than an empty slice, so a
/// rest that is present always holds at least one element.
pub struct Slide<'a, T> {
    v: &'a [T],
    pos: usize,
}

impl<'a, T> Slide<'a, T> {
    /// The elements of the underlying slice.
    pub closed spec fn elems(self) -> Seq<T> {
        self.v@
    }

    /// The index of the next element to produce.
    pub closed spec fn cursor(self) -> nat {
        self.pos as nat
    }

    #[verifier::type_invariant]
    closed spec fn cursor_in_bounds(self) -> bool {
        self.pos <= self.v@.len()
    }

    /// Produces the current element and the elements after it, then moves
    /// the cursor on by one; `None` once every element has been produced.
    pub fn next(&mut self) -> (r: Option<(&'a T, Option<&'a [T]>)>)
        ensures
            item_view(r) == slide_step(old(self).elems(), old(self).cursor()),
            final(self).elems() == old(self).elems(),
            final(self).cursor() == slide_advance(old(self).elems(), old(self).cursor()),
            final(self).cursor() <= final(self).elems().len(),
    {
        proof {
            use_type_invariant(&*self);
        }
        let len = self.v.len();
        if self.pos < len {
            let val = &self.v[self.pos];
            self.pos = self.pos + 1;
            if self.pos < len {
                let rest = slice_subrange(self.v, self.pos, len);
                Some((val, Some(rest)))
            } else {
                Some((val, None))
            }
        } else {
            None
        }
    }

    /// The exact number of elements still to be produced, as both the lower
    /// and the upper bound.
    pub fn size_hint(&self) -> (r: (usize, Option<usize>))
        ensures
            r.0 == self.elems().len() - self.cursor(),
            r.1 == Some(r.0),
    {
        proof {
            use_type_invariant(self);
        }
        let diff = self.v.len() - self.pos;
        (diff, Some(diff))
    }
}

/// Types that can produce a `Slide` over their elements.
pub trait Slider<'a, T: Sized> {
    /// The elements a view produced by `slide` runs over.
    spec fn slide_elems(&self) -> Seq<T>;

    /// Produces a view over the elements, with its cursor at the first one.
    fn slide(&'a self) -> (r: Slide<'a, T>)
        ensures
            r.elems() == self.slide_elems(),
            r.cursor() == 0,
    ;
}

impl<'a, T> Slider<'a, T> for &'a [T] {
    open spec fn slide_elems(&self) -> Seq<T> {
        (*self)@
    }

    fn slide(&'a self) -> (r: Slide<'a, T>) {
        Slide { v: *self, pos: 0 }
    }
}

impl<'a, T> Slider<'a, T> for Vec<T> {
    open spec fn slide_elems(&self) -> Seq<T> {
        self@
    }

    fn slide(&'a self) -> (r: Slide<'a, T>) {
        Slide { v: self.as_slice(), pos: 0 }
    }
}

} // verus!
