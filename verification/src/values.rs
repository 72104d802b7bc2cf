//! Copying and comparing values by what they stand for.
//!
//! A value that holds a `String` or a `Vec` is modelled by its deep view. `Replicate` copies such a
//! value and `Agree` compares two of them, both with respect to that view.
use vstd::prelude::*;

verus! {

/// Copying: the copy stands for the same value.
pub trait Replicate: DeepView + Sized {
    fn replicate(&self) -> (r: Self)
        ensures
            r.deep_view() == self.deep_view(),
    ;
}

/// Comparing: true exactly where both stand for the same value.
pub trait Agree: DeepView + Sized {
    fn agrees(&self, other: &Self) -> (r: bool)
        ensures
            r == (self.deep_view() == other.deep_view()),
    ;
}

impl Replicate for String {
    fn replicate(&self) -> (r: Self) {
        self.clone()
    }
}

impl Agree for String {
    fn agrees(&self, other: &Self) -> (r: bool) {
        crate::text::same_text(self.as_str(), other.as_str())
    }
}

impl Replicate for bool {
    fn replicate(&self) -> (r: Self) {
        *self
    }
}

impl Agree for bool {
    fn agrees(&self, other: &Self) -> (r: bool) {
        *self == *other
    }
}

impl Replicate for u8 {
    fn replicate(&self) -> (r: Self) {
        *self
    }
}

impl Replicate for u16 {
    fn replicate(&self) -> (r: Self) {
        *self
    }
}

impl Agree for u16 {
    fn agrees(&self, other: &Self) -> (r: bool) {
        *self == *other
    }
}

impl Replicate for u32 {
    fn replicate(&self) -> (r: Self) {
        *self
    }
}

impl Replicate for u64 {
    fn replicate(&self) -> (r: Self) {
        *self
    }
}

impl Replicate for usize {
    fn replicate(&self) -> (r: Self) {
        *self
    }
}

impl Replicate for i32 {
    fn replicate(&self) -> (r: Self) {
        *self
    }
}

impl<T: Replicate> Replicate for Vec<T> {
    fn replicate(&self) -> (r: Self) {
        let mut r: Vec<T> = Vec::new();
        let mut i: usize = 0;
        while i < self.len()
            invariant
                i <= self@.len(),
                r@.len() == i,
                forall|k: int| 0 <= k < i ==> r@[k].deep_view() == self@[k].deep_view(),
            decreases self@.len() - i,
        {
            r.push(self[i].replicate());
            i = i + 1;
        }
        assert(r.deep_view() =~= self.deep_view());
        r
    }
}

impl<T: Agree> Agree for Vec<T> {
    fn agrees(&self, other: &Self) -> (r: bool) {
        if self.len() != other.len() {
            assert(self.deep_view().len() != other.deep_view().len());
            return false;
        }
        let mut i: usize = 0;
        while i < self.len()
            invariant
                i <= self@.len(),
                self@.len() == other@.len(),
                forall|k: int| 0 <= k < i ==> self@[k].deep_view() == other@[k].deep_view(),
            decreases self@.len() - i,
        {
            if !self[i].agrees(&other[i]) {
                assert(self.deep_view()[i as int] != other.deep_view()[i as int]);
                return false;
            }
            i = i + 1;
        }
        assert(self.deep_view() =~= other.deep_view());
        true
    }
}

impl<T: Replicate> Replicate for Option<T> {
    fn replicate(&self) -> (r: Self) {
        match self {
            Some(value) => Some(value.replicate()),
            None => None,
        }
    }
}

impl<T: Agree> Agree for Option<T> {
    fn agrees(&self, other: &Self) -> (r: bool) {
        match self {
            Some(left) => match other {
                Some(right) => left.agrees(right),
                None => false,
            },
            None => match other {
                Some(_) => false,
                None => true,
            },
        }
    }
}

impl<A: Replicate, B: Replicate> Replicate for (A, B) {
    fn replicate(&self) -> (r: Self) {
        (self.0.replicate(), self.1.replicate())
    }
}

impl<A: Agree, B: Agree> Agree for (A, B) {
    fn agrees(&self, other: &Self) -> (r: bool) {
        self.0.agrees(&other.0) && self.1.agrees(&other.1)
    }
}

/// Appends one value to a list.
pub fn append<T: DeepView>(list: &mut Vec<T>, value: T)
    ensures
        final(list).deep_view() == old(list).deep_view().push(value.deep_view()),
        final(list)@ == old(list)@.push(value),
{
    list.push(value);
    assert(list.deep_view() =~= old(list).deep_view().push(value.deep_view()));
}

/// Appends all values of `tail` to a list.
pub fn append_all<T: DeepView>(list: &mut Vec<T>, tail: Vec<T>)
    ensures
        final(list).deep_view() == old(list).deep_view() + tail.deep_view(),
        final(list)@ == old(list)@ + tail@,
{
    let mut rest = tail;
    list.append(&mut rest);
    assert(list.deep_view() =~= old(list).deep_view() + tail.deep_view());
}

/// A list of no values.
pub fn empty_list<T: DeepView>() -> (r: Vec<T>)
    ensures
        r.deep_view() == Seq::<T::V>::empty(),
        r@ == Seq::<T>::empty(),
{
    let r: Vec<T> = Vec::new();
    assert(r.deep_view() =~= Seq::<T::V>::empty());
    r
}

/// A list of one value.
pub fn list_of<T: DeepView>(value: T) -> (r: Vec<T>)
    ensures
        r.deep_view() == seq![value.deep_view()],
        r@ == seq![value],
{
    let mut r: Vec<T> = empty_list();
    append(&mut r, value);
    assert(r.deep_view() =~= seq![value.deep_view()]);
    r
}

/// The first value of a list, where `value` occurs in it.
pub fn list_holds<T: Agree>(list: &Vec<T>, value: &T) -> (r: bool)
    ensures
        r == list.deep_view().contains(value.deep_view()),
{
    let mut i: usize = 0;
    while i < list.len()
        invariant
            i <= list@.len(),
            forall|k: int| 0 <= k < i ==> list@[k].deep_view() != value.deep_view(),
        decreases list@.len() - i,
    {
        if list[i].agrees(value) {
            assert(list.deep_view()[i as int] == value.deep_view());
            return true;
        }
        i = i + 1;
    }
    assert(forall|k: int|
        0 <= k < list.deep_view().len() ==> list.deep_view()[k] == list@[k].deep_view());
    false
}

/// The list without its first value.
pub fn rest<T: Replicate>(list: &Vec<T>) -> (r: Vec<T>)
    requires
        list@.len() > 0,
    ensures
        r.deep_view() == list.deep_view().drop_first(),
{
    let ghost all = list.deep_view();
    let mut tail: Vec<T> = empty_list();
    let mut i: usize = 1;
    assert(all.subrange(1, 1) =~= Seq::<T::V>::empty());
    while i < list.len()
        invariant
            1 <= i <= list@.len(),
            all == list.deep_view(),
            tail.deep_view() == all.subrange(1, i as int),
        decreases list@.len() - i,
    {
        append(&mut tail, list[i].replicate());
        assert(all[i as int] == list@[i as int].deep_view());
        assert(all.subrange(1, i as int + 1) =~= all.subrange(1, i as int).push(all[i as int]));
        i = i + 1;
    }
    assert(all.subrange(1, i as int) =~= all.drop_first());
    tail
}

/// Appends the text `value` to a list of texts.
pub fn append_text(list: &mut Vec<String>, value: &str)
    ensures
        final(list).deep_view() == old(list).deep_view().push(value@),
{
    append(list, value.to_owned());
}

/// A list of one text.
pub fn text_list(a: &str) -> (r: Vec<String>)
    ensures
        r.deep_view() == seq![a@],
{
    list_of(a.to_owned())
}

/// A list of two texts.
pub fn text_list2(a: &str, b: &str) -> (r: Vec<String>)
    ensures
        r.deep_view() == seq![a@, b@],
{
    let mut r = text_list(a);
    append_text(&mut r, b);
    assert(r.deep_view() =~= seq![a@, b@]);
    r
}

/// A list of three texts.
pub fn text_list3(a: &str, b: &str, c: &str) -> (r: Vec<String>)
    ensures
        r.deep_view() == seq![a@, b@, c@],
{
    let mut r = text_list2(a, b);
    append_text(&mut r, c);
    assert(r.deep_view() =~= seq![a@, b@, c@]);
    r
}

/// A list of four texts.
pub fn text_list4(a: &str, b: &str, c: &str, d: &str) -> (r: Vec<String>)
    ensures
        r.deep_view() == seq![a@, b@, c@, d@],
{
    let mut r = text_list3(a, b, c);
    append_text(&mut r, d);
    assert(r.deep_view() =~= seq![a@, b@, c@, d@]);
    r
}

/// Filtering one more value of a sequence keeps it or passes over it.
pub proof fn lemma_filter_step<T>(values: Seq<T>, i: int, keep: spec_fn(T) -> bool)
    requires
        0 <= i < values.len(),
    ensures
        values.take(i + 1).filter(keep) == (if keep(values[i]) {
            values.take(i).filter(keep).push(values[i])
        } else {
            values.take(i).filter(keep)
        }),
{
    reveal(Seq::filter);
    assert(values.take(i + 1).drop_last() =~= values.take(i));
}

/// Filtering no values keeps none, and taking all values of a sequence gives the sequence.
pub proof fn lemma_filter_ends<T>(values: Seq<T>, keep: spec_fn(T) -> bool)
    ensures
        values.take(0).filter(keep) == Seq::<T>::empty(),
        values.take(values.len() as int) == values,
{
    reveal(Seq::filter);
    assert(values.take(0) =~= Seq::<T>::empty());
    assert(values.take(values.len() as int) =~= values);
}

/// Whether an optional text holds exactly `wanted`.
pub fn option_is_text(value: &Option<String>, wanted: &str) -> (r: bool)
    ensures
        r == (value.deep_view() == Some(wanted@)),
{
    match value {
        Some(text) => crate::text::same_text(text.as_str(), wanted),
        None => false,
    }
}

/// The text in `value`, or `default` where there is none.
pub fn text_or(value: &Option<String>, default: &str) -> (r: String)
    ensures
        r@ == (match value.deep_view() {
            Some(text) => text,
            None => default@,
        }),
{
    match value {
        Some(text) => text.clone(),
        None => default.to_owned(),
    }
}

} // verus!
