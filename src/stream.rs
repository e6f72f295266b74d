//! The code-pair source: a sequence of fallible pairs with one slot of pushback.

use vstd::prelude::*;
use crate::code_pair::{CodePair, DxfError};

verus! {

/// What the source hands out: a pair, or the failure that produced none.
pub type StreamItem = Result<CodePair, DxfError>;

/// The pushback adaptor of `itertools`, carried opaquely.
#[verifier::external_type_specification]
#[verifier::external_body]
#[verifier::reject_recursive_types(I)]
pub struct ExPutBack<I: Iterator>(itertools::PutBack<I>);

/// Items not yet taken from the adaptor, in the order they will come; a
/// pushed-back item comes first.
pub uninterp spec fn put_back_items(p: itertools::PutBack<std::vec::IntoIter<StreamItem>>) -> Seq<StreamItem>;

/// Whether the pushback slot of the adaptor is occupied.
pub uninterp spec fn put_back_occupied(p: itertools::PutBack<std::vec::IntoIter<StreamItem>>) -> bool;

/// A pull source of code pairs with one slot of pushback.
pub struct CodePairStream {
    pub iter: itertools::PutBack<std::vec::IntoIter<StreamItem>>,
}

/// Pairs not yet taken from the source, in the order they will come.
pub open spec fn pending(s: CodePairStream) -> Seq<StreamItem> {
    put_back_items(s.iter)
}

/// Whether the pushback slot of the source is occupied.
pub open spec fn holds_pushed_back(s: CodePairStream) -> bool {
    put_back_occupied(s.iter)
}

/// Relies on `itertools::put_back`: the adaptor yields the vector's items in
/// order and starts with an empty pushback slot.
#[verifier::external_body]
fn new_put_back(items: Vec<StreamItem>) -> (r: itertools::PutBack<std::vec::IntoIter<StreamItem>>)
    ensures
        put_back_items(r) == items@,
        !put_back_occupied(r),
{
    itertools::put_back(items)
}

/// Relies on `PutBack::next`: it empties the pushback slot if occupied, else
/// takes the vector iterator's next item.
#[verifier::external_body]
fn put_back_next(p: &mut itertools::PutBack<std::vec::IntoIter<StreamItem>>) -> (r: Option<StreamItem>)
    ensures
        put_back_items(*old(p)).len() == 0 ==> r.is_none() && put_back_items(*final(p))
            == put_back_items(*old(p)),
        put_back_items(*old(p)).len() > 0 ==> r == Some(put_back_items(*old(p))[0])
            && put_back_items(*final(p)) == put_back_items(*old(p)).drop_first(),
        !put_back_occupied(*final(p)),
{
    p.next()
}

/// Relies on `PutBack::put_back`: the item goes into the slot, and an item
/// that occupied the slot is handed back.
#[verifier::external_body]
fn put_back_item(p: &mut itertools::PutBack<std::vec::IntoIter<StreamItem>>, item: StreamItem) -> (r: Option<StreamItem>)
    ensures
        put_back_occupied(*final(p)),
        !put_back_occupied(*old(p)) ==> r.is_none() && put_back_items(*final(p)) == seq![item]
            + put_back_items(*old(p)),
        put_back_occupied(*old(p)) ==> r == Some(put_back_items(*old(p))[0]) && put_back_items(
            *final(p),
        ) == seq![item] + put_back_items(*old(p)).drop_first(),
{
    p.put_back(item)
}

impl CodePairStream {
    pub fn new(items: Vec<StreamItem>) -> (s: CodePairStream)
        ensures
            pending(s) == items@,
            !holds_pushed_back(s),
    {
        CodePairStream { iter: new_put_back(items) }
    }

    /// Takes the next item: the pushed-back one if any.
    pub fn next(&mut self) -> (r: Option<StreamItem>)
        ensures
            pending(*old(self)).len() == 0 ==> r.is_none() && pending(*final(self))
                == pending(*old(self)),
            pending(*old(self)).len() > 0 ==> r == Some(pending(*old(self))[0]) && pending(
                *final(self),
            ) == pending(*old(self)).drop_first(),
            !holds_pushed_back(*final(self)),
    {
        put_back_next(&mut self.iter)
    }

    /// Puts an item back in front; an item already pushed back is handed back.
    pub fn put_back(&mut self, item: StreamItem) -> (r: Option<StreamItem>)
        ensures
            holds_pushed_back(*final(self)),
            !holds_pushed_back(*old(self)) ==> r.is_none() && pending(*final(self)) == seq![item]
                + pending(*old(self)),
            holds_pushed_back(*old(self)) ==> r == Some(pending(*old(self))[0]) && pending(
                *final(self),
            ) == seq![item] + pending(*old(self)).drop_first(),
    {
        put_back_item(&mut self.iter, item)
    }
}

} // verus!
