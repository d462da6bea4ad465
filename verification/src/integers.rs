//! An NA-aware integer vector: either a plainly allocated vector of elements
//! or, for large ascending runs, a compact representation that stores only
//! the bounds and computes each element on demand.

use vstd::prelude::*;

verus! {

/// An NA-aware 32-bit integer element. The minimum 32-bit integer is the
/// sentinel for the missing value (NA); every other bit pattern is itself.
#[derive(Debug, Clone, Copy, PartialEq, Eq, Structural)]
pub struct Rint {
    /// The stored bit pattern (the minimum 32-bit integer means NA).
    pub raw: i32,
}

impl Rint {
    /// The stored bit pattern (NA is the minimum 32-bit integer).
    pub open spec fn spec_inner(self) -> i32 {
        self.raw
    }

    /// Whether this element is the missing value.
    pub open spec fn spec_is_na(self) -> bool {
        self.spec_inner() == i32::MIN
    }

    /// The missing value.
    pub fn na() -> (r: Rint)
        ensures
            r.spec_is_na(),
    {
        Rint { raw: i32::MIN }
    }

    /// The stored bit pattern.
    pub fn inner(&self) -> (r: i32)
        ensures
            r == self.spec_inner(),
    {
        self.raw
    }

    /// Whether this element is the missing value.
    pub fn is_na(&self) -> (r: bool)
        ensures
            r == self.spec_is_na(),
    {
        self.raw == i32::MIN
    }
}

impl From<i32> for Rint {
    /// Wrap a raw value; the minimum 32-bit integer becomes NA.
    fn from(v: i32) -> (r: Rint) {
        Rint { raw: v }
    }
}

impl vstd::std_specs::convert::FromSpecImpl<i32> for Rint {
    open spec fn obeys_from_spec() -> bool {
        true
    }

    open spec fn from_spec(v: i32) -> Rint {
        Rint { raw: v }
    }
}

/// Allocated vectors shorter than this stay allocated; `from_range` uses the
/// compact representation from this length on.
pub const COMPACT_MIN_LEN: usize = 65536;

/// How the elements are held.
#[derive(Debug, PartialEq)]
enum Repr {
    /// A plainly allocated vector of elements.
    Owned(Vec<Rint>),
    /// The ascending run `start, start + 1, ...` of length `len`, stored
    /// compactly and computed on demand.
    Compact { start: i32, len: usize },
}

/// An NA-aware integer vector.
#[derive(Debug, PartialEq)]
pub struct Integers {
    repr: Repr,
}

impl View for Integers {
    type V = Seq<Rint>;

    /// The elements, in order.
    closed spec fn view(&self) -> Seq<Rint> {
        match self.repr {
            Repr::Owned(values) => values@,
            Repr::Compact { start, len } => Seq::new(
                len as nat,
                |i: int| (Rint { raw: (start + i) as i32 }),
            ),
        }
    }
}

impl Integers {
    #[verifier::type_invariant]
    spec fn wf(self) -> bool {
        match self.repr {
            Repr::Owned(_) => true,
            Repr::Compact { start, len } => start + len <= i32::MAX + 1,
        }
    }

    /// Whether the compact on-demand representation is in use.
    pub closed spec fn spec_is_compact(self) -> bool {
        self.repr is Compact
    }

    /// A vector of `len` elements, each starting out as the missing value.
    pub fn new(len: usize) -> (r: Integers)
        ensures
            r@ == Seq::new(len as nat, |i: int| (Rint { raw: i32::MIN })),
            !r.spec_is_compact(),
    {
        let mut values: Vec<Rint> = Vec::with_capacity(len);
        let mut i: usize = 0;
        while i < len
            invariant
                i <= len,
                values@ == Seq::new(i as nat, |j: int| Rint { raw: i32::MIN }),
            decreases len - i,
        {
            values.push(Rint::na());
            i = i + 1;
            proof {
                assert(values@ =~= Seq::new(i as nat, |j: int| Rint { raw: i32::MIN }));
            }
        }
        Integers { repr: Repr::Owned(values) }
    }

    /// An allocated vector holding exactly the given elements, in order.
    pub fn from_values(values: Vec<Rint>) -> (r: Integers)
        ensures
            r@ == values@,
            !r.spec_is_compact(),
    {
        Integers { repr: Repr::Owned(values) }
    }

    /// The ascending run `start, start + 1, ..., end - 1` (empty when `start`
    /// is not below `end`). Short runs are allocated; runs of
    /// `COMPACT_MIN_LEN` elements or more use the compact representation.
    pub fn from_range(start: i32, end: i32) -> (r: Integers)
        ensures
            r@ == Seq::new(
                if start <= end { (end - start) as nat } else { 0 },
                |i: int| (Rint { raw: (start + i) as i32 }),
            ),
            r.spec_is_compact() <==> (start + COMPACT_MIN_LEN <= end),
    {
        if start >= end {
            let values: Vec<Rint> = Vec::new();
            proof {
                assert(Seq::new(
                    if start <= end { (end - start) as nat } else { 0 },
                    |i: int| (Rint { raw: (start + i) as i32 }),
                ) =~= Seq::<Rint>::empty());
            }
            return Integers { repr: Repr::Owned(values) };
        }
        let len: usize = ((end as i64) - (start as i64)) as usize;
        if len >= COMPACT_MIN_LEN {
            Integers { repr: Repr::Compact { start, len } }
        } else {
            let mut values: Vec<Rint> = Vec::with_capacity(len);
            let mut i: usize = 0;
            while i < len
                invariant
                    i <= len,
                    len == end - start,
                    start < end,
                    len < COMPACT_MIN_LEN,
                    values@ == Seq::new(i as nat, |j: int| (Rint { raw: (start + j) as i32 })),
                decreases len - i,
            {
                values.push(Rint { raw: start + (i as i32) });
                i = i + 1;
                proof {
                    assert(values@ =~= Seq::new(
                        i as nat,
                        |j: int| (Rint { raw: (start + j) as i32 }),
                    ));
                }
            }
            Integers { repr: Repr::Owned(values) }
        }
    }

    /// The number of elements.
    pub fn len(&self) -> (n: usize)
        ensures
            n == self@.len(),
    {
        match &self.repr {
            Repr::Owned(values) => values.len(),
            Repr::Compact { start: _, len } => *len,
        }
    }

    /// This vector holds integer elements.
    pub fn is_integer(&self) -> (r: bool)
        ensures
            r == true,
    {
        true
    }

    /// Whether the compact on-demand representation is in use.
    pub fn is_altrep(&self) -> (r: bool)
        ensures
            r == self.spec_is_compact(),
    {
        match &self.repr {
            Repr::Owned(_) => false,
            Repr::Compact { .. } => true,
        }
    }

    /// The element at `index`.
    pub fn elt(&self, index: usize) -> (r: Rint)
        requires
            index < self@.len(),
        ensures
            r == self@[index as int],
    {
        proof {
            use_type_invariant(self);
        }
        match &self.repr {
            Repr::Owned(values) => values[index],
            Repr::Compact { start, len: _ } => {
                let raw: i32 = (((*start) as i64) + (index as i64)) as i32;
                Rint { raw }
            },
        }
    }

    /// Overwrite the element at `index`. The result is always an allocated
    /// vector: a compact one is materialized first.
    pub fn set_elt(&mut self, index: usize, value: Rint)
        requires
            index < old(self)@.len(),
        ensures
            final(self)@ == old(self)@.update(index as int, value),
    {
        let len = self.len();
        let mut values: Vec<Rint> = Vec::with_capacity(len);
        let mut i: usize = 0;
        while i < len
            invariant
                i <= len,
                *self == *old(self),
                len == self@.len(),
                values@ == self@.take(i as int),
            decreases len - i,
        {
            let v = self.elt(i);
            values.push(v);
            i = i + 1;
            proof {
                assert(values@ =~= self@.take(i as int));
            }
        }
        proof {
            assert(values@ =~= self@);
        }
        values[index] = value;
        *self = Integers { repr: Repr::Owned(values) };
    }

    /// Copy elements, starting at `index`, into `dest` until either `dest` is
    /// full or the vector is exhausted; the number copied is returned and the
    /// rest of `dest` is left as it was.
    pub fn get_region(&self, index: usize, dest: &mut Vec<Rint>) -> (n: usize)
        ensures
            n == if index < self@.len() {
                vstd::math::min((self@.len() - index) as int, old(dest)@.len() as int)
            } else {
                0
            },
            final(dest)@.len() == old(dest)@.len(),
            forall|j: int|
                0 <= j < n ==> final(dest)@[j] == self@[index + j],
            forall|j: int|
                n <= j < old(dest)@.len() ==> final(dest)@[j] == old(dest)@[j],
    {
        let total = self.len();
        if index >= total {
            return 0;
        }
        let avail = total - index;
        let n = if avail < dest.len() {
            avail
        } else {
            dest.len()
        };
        let mut j: usize = 0;
        while j < n
            invariant
                j <= n,
                n <= avail,
                avail == self@.len() - index,
                index + avail <= usize::MAX,
                index < self@.len(),
                n <= dest@.len(),
                dest@.len() == old(dest)@.len(),
                forall|k: int| 0 <= k < j ==> dest@[k] == self@[index + k],
                forall|k: int| j <= k < old(dest)@.len() ==> dest@[k] == old(dest)@[k],
            decreases n - j,
        {
            let v = self.elt(index + j);
            dest[j] = v;
            j = j + 1;
        }
        n
    }
}

} // verus!
