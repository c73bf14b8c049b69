//! A value paired with a generation counter, for telling apart copies of a
//! value that were derived from one another by clone-and-transform steps.

use vstd::prelude::*;

verus! {

/// A payload together with its version. A fresh container is at version 0;
/// each derivation yields a container one version further on. Versions are
/// machine integers, so a derivation asks that its source be below the
/// largest one.
#[derive(Clone, Debug)]
pub struct Versioned<T> {
    value: T,
    version: usize,
}

impl<T> Versioned<T> {
    /// The payload held by the container.
    pub closed spec fn payload(&self) -> T {
        self.value
    }

    /// The version of the container.
    pub closed spec fn version(&self) -> nat {
        self.version as nat
    }

    /// The container that `new(value)` builds.
    pub closed spec fn spec_new(value: T) -> Self {
        Versioned { value, version: 0 }
    }

    /// The container one version on from `self`, with the same payload.
    pub closed spec fn spec_inc(self) -> Self
        recommends
            self.version() < usize::MAX,
    {
        Versioned { value: self.value, version: (self.version + 1) as usize }
    }

    /// `self` is exactly one version before `other`.
    pub open spec fn directly_precedes(&self, other: &Self) -> bool {
        self.version() + 1 == other.version()
    }

    /// Wraps `value` at version 0.
    pub fn new(value: T) -> (r: Self)
        ensures
            r == Self::spec_new(value),
    {
        Versioned { value, version: 0 }
    }

    /// Gives the payload back, dropping the version.
    pub fn extract(self) -> (r: T)
        ensures
            r == self.payload(),
    {
        self.value
    }

    /// Borrows the payload; the container is left as it is.
    pub fn get(&self) -> (r: &T)
        ensures
            *r == self.payload(),
    {
        &self.value
    }

    /// The same payload, one version on. Consumes `self`.
    pub fn inc(self) -> (r: Self)
        requires
            self.version() < usize::MAX,
        ensures
            r == self.spec_inc(),
    {
        Versioned { value: self.value, version: self.version + 1 }
    }

    /// Applies `f` to the payload and bumps the version, keeping nothing.
    fn _mutate<F: FnOnce(T) -> T>(self, f: F)
        requires
            self.version() < usize::MAX,
            f.requires((self.payload(),)),
    {
        let mut this = self;
        this.value = f(this.value);
        this.inc();
    }

    /// A container holding `value`, one version after `self`.
    fn _modify(&self, value: T) -> (r: Self)
        requires
            self.version() < usize::MAX,
        ensures
            r.payload() == value,
            self.directly_precedes(&r),
    {
        Versioned { value, version: self.version + 1 }
    }

    /// Whether `other` is exactly one version after `self`.
    pub fn old_version(&self, other: &Versioned<T>) -> (r: bool)
        ensures
            r == self.directly_precedes(other),
    {
        self.version < other.version && other.version - self.version == 1
    }

    /// Whether `self` and `other` are at the same version.
    pub fn _same_version(&self, other: &Versioned<T>) -> (r: bool)
        ensures
            r == (self.version() == other.version()),
    {
        self.version == other.version
    }

    /// A freshly built container is at version 0, and extracting from it
    /// gives back the value it was built from.
    pub proof fn lemma_new_then_extract(value: T)
        ensures
            Self::spec_new(value).version() == 0,
            Self::spec_new(value).payload() == value,
    {
    }

    /// Advancing a container keeps its payload, which `get` shows before and
    /// after, and puts the result exactly one version after it.
    pub proof fn lemma_inc_keeps_payload(c: Self)
        requires
            c.version() < usize::MAX,
        ensures
            c.spec_inc().payload() == c.payload(),
            c.spec_inc().version() == c.version() + 1,
            c.directly_precedes(&c.spec_inc()),
    {
    }
}

impl<T: Clone> Versioned<T> {
    /// `next` is a possible result of `src.mutate_clone(f)`: one version after
    /// `src`, holding what `f` returns on a clone of the payload of `src`.
    pub open spec fn transformed_from<F: FnOnce(T) -> T>(next: Self, src: Self, f: F) -> bool {
        &&& next.version() == src.version() + 1
        &&& exists|c: T| cloned(src.payload(), c) && f.ensures((c,), next.payload())
    }

    /// Clones the payload, applies `f` to the clone and wraps the result one
    /// version after `self`, which stays as it was.
    pub fn mutate_clone<F: FnOnce(T) -> T>(&self, f: F) -> (r: Self)
        requires
            self.version() < usize::MAX,
            forall|c: T| cloned(self.payload(), c) ==> f.requires((c,)),
        ensures
            Self::transformed_from(r, *self, f),
            self.directly_precedes(&r),
    {
        let c = self.value.clone();
        assert(cloned(self.payload(), c));
        let value = f(c);
        Versioned { value, version: self.version + 1 }
    }

    /// Where cloning the payload of `c` gives an equal value, the payload of
    /// `c.mutate_clone(f)` is what `f` returns on the payload of `c`.
    pub proof fn lemma_mutate_clone_applies_f<F: FnOnce(T) -> T>(c: Self, f: F, next: Self)
        requires
            Self::transformed_from(next, c, f),
            forall|x: T| cloned(c.payload(), x) ==> x == c.payload(),
        ensures
            f.ensures((c.payload(),), next.payload()),
    {
    }

    /// Whatever `f` is, `c.mutate_clone(f)` is a direct successor of `c`.
    pub proof fn lemma_mutate_clone_is_successor<F: FnOnce(T) -> T>(c: Self, f: F, next: Self)
        requires
            Self::transformed_from(next, c, f),
        ensures
            c.directly_precedes(&next),
    {
    }

    /// Two containers derived from the same `c` by `mutate_clone` are at the
    /// same version, one after `c`, whatever their payloads.
    pub proof fn lemma_sibling_clones_same_version<F: FnOnce(T) -> T, G: FnOnce(T) -> T>(
        c: Self,
        f: F,
        g: G,
        a: Self,
        b: Self,
    )
        requires
            Self::transformed_from(a, c, f),
            Self::transformed_from(b, c, g),
        ensures
            a.version() == b.version(),
            a.version() == c.version() + 1,
    {
    }
}

} // verus!
