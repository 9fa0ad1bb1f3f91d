use vstd::prelude::*;

verus! {

/// Conversion between a right-nested tuple of `N` values, as built by
/// repeated pairing (`(((a, b), c), d)`), and the `N` values in order.
pub trait DInto<const N: usize>: Sized {
    /// The type of each value.
    type Item;

    /// The values of `self`, in order.
    spec fn spec_values(self) -> Seq<Self::Item>;

    /// The nested tuple that holds `values`, in order.
    spec fn spec_from(values: Seq<Self::Item>) -> Self;

    /// Reading the values back gives the values the tuple was built from.
    proof fn lemma_values_of_from(values: Seq<Self::Item>)
        requires
            values.len() == N,
        ensures
            Self::spec_from(values).spec_values() == values,
    ;

    /// Rebuilding a tuple from its values gives the tuple back.
    proof fn lemma_from_of_values(self)
        ensures
            self.spec_values().len() == N,
            Self::spec_from(self.spec_values()) == self,
    ;

    fn into(self) -> (r: Vec<Self::Item>)
        ensures
            r@ == self.spec_values(),
            r@.len() == N,
    ;

    fn from(value: Vec<Self::Item>) -> (r: Self)
        requires
            value@.len() == N,
        ensures
            r == Self::spec_from(value@),
    ;
}

impl<T> DInto<1> for T {
    type Item = T;

    open spec fn spec_values(self) -> Seq<T> {
        seq![self]
    }

    open spec fn spec_from(values: Seq<T>) -> T {
        values[0]
    }

    proof fn lemma_values_of_from(values: Seq<T>) {
        assert(seq![values[0]] =~= values);
    }

    proof fn lemma_from_of_values(self) {
    }

    fn into(self) -> (r: Vec<T>) {
        let mut v: Vec<T> = Vec::new();
        v.push(self);
        v
    }

    fn from(value: Vec<T>) -> (r: T) {
        let mut value = value;
        value.pop().unwrap()
    }
}

impl<T> DInto<2> for (T, T) {
    type Item = T;

    open spec fn spec_values(self) -> Seq<T> {
        seq![self.0, self.1]
    }

    open spec fn spec_from(values: Seq<T>) -> (T, T) {
        (values[0], values[1])
    }

    proof fn lemma_values_of_from(values: Seq<T>) {
        assert(seq![values[0], values[1]] =~= values);
    }

    proof fn lemma_from_of_values(self) {
    }

    fn into(self) -> (r: Vec<T>) {
        let (a, b) = self;
        let mut v: Vec<T> = Vec::new();
        v.push(a);
        v.push(b);
        v
    }

    fn from(value: Vec<T>) -> (r: (T, T)) {
        let mut value = value;
        let b = value.pop().unwrap();
        let a = value.pop().unwrap();
        (a, b)
    }
}

impl<T> DInto<3> for ((T, T), T) {
    type Item = T;

    open spec fn spec_values(self) -> Seq<T> {
        seq![self.0.0, self.0.1, self.1]
    }

    open spec fn spec_from(values: Seq<T>) -> ((T, T), T) {
        ((values[0], values[1]), values[2])
    }

    proof fn lemma_values_of_from(values: Seq<T>) {
        assert(seq![values[0], values[1], values[2]] =~= values);
    }

    proof fn lemma_from_of_values(self) {
    }

    fn into(self) -> (r: Vec<T>) {
        let ((a, b), c) = self;
        let mut v: Vec<T> = Vec::new();
        v.push(a);
        v.push(b);
        v.push(c);
        v
    }

    fn from(value: Vec<T>) -> (r: ((T, T), T)) {
        let mut value = value;
        let c = value.pop().unwrap();
        let b = value.pop().unwrap();
        let a = value.pop().unwrap();
        ((a, b), c)
    }
}

impl<T> DInto<4> for (((T, T), T), T) {
    type Item = T;

    open spec fn spec_values(self) -> Seq<T> {
        seq![self.0.0.0, self.0.0.1, self.0.1, self.1]
    }

    open spec fn spec_from(values: Seq<T>) -> (((T, T), T), T) {
        (((values[0], values[1]), values[2]), values[3])
    }

    proof fn lemma_values_of_from(values: Seq<T>) {
        assert(seq![values[0], values[1], values[2], values[3]] =~= values);
    }

    proof fn lemma_from_of_values(self) {
    }

    fn into(self) -> (r: Vec<T>) {
        let (((a, b), c), d) = self;
        let mut v: Vec<T> = Vec::new();
        v.push(a);
        v.push(b);
        v.push(c);
        v.push(d);
        v
    }

    fn from(value: Vec<T>) -> (r: (((T, T), T), T)) {
        let mut value = value;
        let d = value.pop().unwrap();
        let c = value.pop().unwrap();
        let b = value.pop().unwrap();
        let a = value.pop().unwrap();
        (((a, b), c), d)
    }
}

/// For every supported arity, turning `N` values into a
/// nested tuple and back gives the same values, and turning a nested tuple
/// into its values and back gives the same tuple.
pub proof fn lemma_arity_round_trip<X: DInto<N>, const N: usize>(values: Seq<X::Item>, x: X)
    requires
        values.len() == N,
    ensures
        X::spec_from(values).spec_values() == values,
        X::spec_from(x.spec_values()) == x,
{
    X::lemma_values_of_from(values);
    x.lemma_from_of_values();
}

/// Duplication of one value into the nested-tuple shape `T` of a fan-out.
pub trait DInto2<T>: Sized {
    /// `r` holds `self` in every slot: clones of it, and `self` itself in the last.
    spec fn spec_copies(self, r: T) -> bool;

    fn into(self) -> (r: T)
        ensures
            self.spec_copies(r),
    ;
}

impl<T: Clone> DInto2<(T, T)> for T {
    open spec fn spec_copies(self, r: (T, T)) -> bool {
        cloned(self, r.0) && r.1 == self
    }

    fn into(self) -> (r: (T, T)) {
        (self.clone(), self)
    }
}

impl<T: Clone> DInto2<((T, T), T)> for T {
    open spec fn spec_copies(self, r: ((T, T), T)) -> bool {
        cloned(self, r.0.0) && cloned(self, r.0.1) && r.1 == self
    }

    fn into(self) -> (r: ((T, T), T)) {
        ((self.clone(), self.clone()), self)
    }
}

impl<T: Clone> DInto2<(((T, T), T), T)> for T {
    open spec fn spec_copies(self, r: (((T, T), T), T)) -> bool {
        cloned(self, r.0.0.0) && cloned(self, r.0.0.1) && cloned(self, r.0.1) && r.1 == self
    }

    fn into(self) -> (r: (((T, T), T), T)) {
        (((self.clone(), self.clone()), self.clone()), self)
    }
}

} // verus!
