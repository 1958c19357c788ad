//! Vectors seen through the deep views of their items.

use vstd::prelude::*;

verus! {

/// Appends `item` to `v`; the deep view grows by the item's deep view.
pub fn push_item<T: DeepView>(v: &mut Vec<T>, item: T)
    ensures
        final(v).deep_view() == old(v).deep_view().push(item.deep_view()),
        final(v)@ == old(v)@.push(item),
{
    v.push(item);
}

/// A vector that holds `item` alone.
pub fn single<T: DeepView>(item: T) -> (r: Vec<T>)
    ensures
        r.deep_view() == seq![item.deep_view()],
        r@ == seq![item],
{
    let mut v: Vec<T> = Vec::new();
    v.push(item);
    v
}

/// A vector that holds `first` and then `second`.
pub fn pair<T: DeepView>(first: T, second: T) -> (r: Vec<T>)
    ensures
        r.deep_view() == seq![first.deep_view(), second.deep_view()],
{
    let mut v: Vec<T> = Vec::new();
    v.push(first);
    v.push(second);
    v
}

/// A vector that holds the three items in the order given.
pub fn triple<T: DeepView>(first: T, second: T, third: T) -> (r: Vec<T>)
    ensures
        r.deep_view() == seq![first.deep_view(), second.deep_view(), third.deep_view()],
{
    let mut v: Vec<T> = Vec::new();
    v.push(first);
    v.push(second);
    v.push(third);
    v
}

/// A vector that holds the four items in the order given.
pub fn quad<T: DeepView>(first: T, second: T, third: T, fourth: T) -> (r: Vec<T>)
    ensures
        r.deep_view() == seq![
            first.deep_view(),
            second.deep_view(),
            third.deep_view(),
            fourth.deep_view(),
        ],
{
    let mut v: Vec<T> = Vec::new();
    v.push(first);
    v.push(second);
    v.push(third);
    v.push(fourth);
    v
}

/// A vector without items.
pub fn empty<T: DeepView>() -> (r: Vec<T>)
    ensures
        r.deep_view() == Seq::<T::V>::empty(),
        r@ == Seq::<T>::empty(),
{
    let v: Vec<T> = Vec::new();
    v
}

} // verus!
