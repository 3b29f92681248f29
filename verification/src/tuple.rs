//! Tuples of a fixed number of components of one type, picked by that number.

use vstd::prelude::*;

verus! {

/// Stands for the tuples of `N` components.
pub struct TupleManyStruct<const N: usize> {}

/// The tuple of `N` components of type `T`.
pub type TupleMany<const N: usize, T> = <TupleManyStruct<N> as TupleManyTrait<T>>::Type;

pub trait TupleManyTrait<T> {
    type Type;

    /// The number of components of the tuple.
    spec fn arity() -> nat;

    /// The components of a tuple, in order.
    spec fn components(tuple: Self::Type) -> Seq<T>;

    /// A tuple has as many components as its arity says.
    proof fn lemma_components_len(tuple: Self::Type)
        ensures
            Self::components(tuple).len() == Self::arity(),
    ;

    /// Makes the tuple of the given items, which must be as many as the
    /// tuple has components.
    fn try_from_iter(items: Vec<T>) -> (r: Result<Self::Type, ()>)
        ensures
            r is Ok <==> items@.len() == Self::arity(),
            r is Ok ==> Self::components(r->Ok_0) == items@,
    ;
}

impl<T> TupleManyTrait<T> for TupleManyStruct<1> {
    type Type = (T,);

    open spec fn arity() -> nat {
        1
    }

    open spec fn components(tuple: (T,)) -> Seq<T> {
        seq![tuple.0]
    }

    proof fn lemma_components_len(tuple: (T,)) {
    }

    fn try_from_iter(items: Vec<T>) -> (r: Result<(T,), ()>) {
        let mut rest = items;
        if rest.len() != 1 {
            return Err(());
        }
        match rest.pop() {
            Some(first) => {
                assert(seq![first] =~= items@);
                Ok((first,))
            },
            None => Err(()),
        }
    }
}

impl<T> TupleManyTrait<T> for TupleManyStruct<2> {
    type Type = (T, T);

    open spec fn arity() -> nat {
        2
    }

    open spec fn components(tuple: (T, T)) -> Seq<T> {
        seq![tuple.0, tuple.1]
    }

    proof fn lemma_components_len(tuple: (T, T)) {
    }

    fn try_from_iter(items: Vec<T>) -> (r: Result<(T, T), ()>) {
        let mut rest = items;
        if rest.len() != 2 {
            return Err(());
        }
        match (rest.pop(), rest.pop()) {
            (Some(second), Some(first)) => {
                assert(seq![first, second] =~= items@);
                Ok((first, second))
            },
            _ => Err(()),
        }
    }
}

impl<T> TupleManyTrait<T> for TupleManyStruct<3> {
    type Type = (T, T, T);

    open spec fn arity() -> nat {
        3
    }

    open spec fn components(tuple: (T, T, T)) -> Seq<T> {
        seq![tuple.0, tuple.1, tuple.2]
    }

    proof fn lemma_components_len(tuple: (T, T, T)) {
    }

    fn try_from_iter(items: Vec<T>) -> (r: Result<(T, T, T), ()>) {
        let mut rest = items;
        if rest.len() != 3 {
            return Err(());
        }
        match (rest.pop(), rest.pop(), rest.pop()) {
            (Some(third), Some(second), Some(first)) => {
                assert(seq![first, second, third] =~= items@);
                Ok((first, second, third))
            },
            _ => Err(()),
        }
    }
}

impl<T> TupleManyTrait<T> for TupleManyStruct<4> {
    type Type = (T, T, T, T);

    open spec fn arity() -> nat {
        4
    }

    open spec fn components(tuple: (T, T, T, T)) -> Seq<T> {
        seq![tuple.0, tuple.1, tuple.2, tuple.3]
    }

    proof fn lemma_components_len(tuple: (T, T, T, T)) {
    }

    fn try_from_iter(items: Vec<T>) -> (r: Result<(T, T, T, T), ()>) {
        let mut rest = items;
        if rest.len() != 4 {
            return Err(());
        }
        match (rest.pop(), rest.pop(), rest.pop(), rest.pop()) {
            (Some(fourth), Some(third), Some(second), Some(first)) => {
                assert(seq![first, second, third, fourth] =~= items@);
                Ok((first, second, third, fourth))
            },
            _ => Err(()),
        }
    }
}

impl<T> TupleManyTrait<T> for TupleManyStruct<5> {
    type Type = (T, T, T, T, T);

    open spec fn arity() -> nat {
        5
    }

    open spec fn components(tuple: (T, T, T, T, T)) -> Seq<T> {
        seq![tuple.0, tuple.1, tuple.2, tuple.3, tuple.4]
    }

    proof fn lemma_components_len(tuple: (T, T, T, T, T)) {
    }

    fn try_from_iter(items: Vec<T>) -> (r: Result<(T, T, T, T, T), ()>) {
        let mut rest = items;
        if rest.len() != 5 {
            return Err(());
        }
        match (rest.pop(), rest.pop(), rest.pop(), rest.pop(), rest.pop()) {
            (Some(fifth), Some(fourth), Some(third), Some(second), Some(first)) => {
                assert(seq![first, second, third, fourth, fifth] =~= items@);
                Ok((first, second, third, fourth, fifth))
            },
            _ => Err(()),
        }
    }
}

} // verus!
