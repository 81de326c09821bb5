//! Small verified helpers over owned text.

use vstd::prelude::*;

verus! {

/// Whether `item` occurs in `list`, compared character by character.
pub fn contains_text(list: &Vec<String>, item: &String) -> (found: bool)
    ensures
        found == list.deep_view().contains(item@),
{
    let mut i: usize = 0;
    while i < list.len()
        invariant
            0 <= i <= list.len(),
            forall|j: int| 0 <= j < i ==> list.deep_view()[j] != item@,
        decreases list.len() - i,
    {
        if list[i] == *item {
            assert(list.deep_view()[i as int] == item@);
            return true;
        }
        i = i + 1;
    }
    false
}

/// An element-for-element copy of a list of text.
pub fn copy_texts(list: &Vec<String>) -> (copy: Vec<String>)
    ensures
        copy.deep_view() == list.deep_view(),
{
    let copy = list.clone();
    assert(copy@ =~= list@);
    copy
}

/// Whether the text is empty.
pub fn is_blank(text: &String) -> (blank: bool)
    ensures
        blank == (text@.len() == 0),
{
    text.as_str().is_empty()
}

} // verus!
