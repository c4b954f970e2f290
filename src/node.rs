//! Reading attributes and text from nodes, and the ordered-candidate cascade.
use vstd::prelude::*;
use crate::model::{AttrName, Attr, Element};
use crate::text::{chars_of, trimmed, trim_of};

verus! {

/// The value of the first attribute named `name` at index `i` or later.
pub open spec fn attr_from(attrs: Seq<Attr>, name: AttrName, i: int) -> Option<Seq<char>>
    decreases attrs.len() - i,
{
    if i < 0 || i >= attrs.len() {
        None
    } else if attrs[i].name == name {
        Some(attrs[i].value@)
    } else {
        attr_from(attrs, name, i + 1)
    }
}

/// The value of attribute `name` of `e`, if present.
pub open spec fn attr_of(e: Element, name: AttrName) -> Option<Seq<char>> {
    attr_from(e.attrs@, name, 0)
}

/// The value of attribute `name` of `e`, empty when absent.
pub open spec fn attr_or_empty(e: Element, name: AttrName) -> Seq<char> {
    match attr_of(e, name) {
        Some(v) => v,
        None => Seq::empty(),
    }
}

/// The text of `e`, empty when it has none.
pub open spec fn text_or_empty(e: Element) -> Seq<char> {
    match e.text {
        Some(t) => t@,
        None => Seq::empty(),
    }
}

/// The first candidate, from index `i` on, whose value is non-empty once
/// trimmed, trimmed; empty when there is none.
pub open spec fn cascade_from(e: Element, names: Seq<AttrName>, i: int) -> Seq<char>
    decreases names.len() - i,
{
    if i < 0 || i >= names.len() {
        Seq::empty()
    } else {
        match attr_of(e, names[i]) {
            Some(v) if trim_of(v).len() > 0 => trim_of(v),
            _ => cascade_from(e, names, i + 1),
        }
    }
}

/// The cascade over all candidates of `names`.
pub open spec fn cascade(e: Element, names: Seq<AttrName>) -> Seq<char> {
    cascade_from(e, names, 0)
}

/// The value of attribute `name` of `e`.
pub fn attr_ref(e: &Element, name: AttrName) -> (r: Option<&String>)
    ensures
        match r {
            Some(v) => attr_of(*e, name) == Some(v@),
            None => attr_of(*e, name) is None,
        },
{
    let mut i: usize = 0;
    while i < e.attrs.len()
        invariant
            i <= e.attrs.len(),
            attr_from(e.attrs@, name, 0) == attr_from(e.attrs@, name, i as int),
        decreases e.attrs.len() - i,
    {
        if e.attrs[i].name == name {
            return Some(&e.attrs[i].value);
        }
        i = i + 1;
    }
    None
}

/// The value of attribute `name` of `e`, as characters.
pub fn attr(e: &Element, name: AttrName) -> (r: Option<Vec<char>>)
    ensures
        match r {
            Some(v) => attr_of(*e, name) == Some(v@),
            None => attr_of(*e, name) is None,
        },
{
    match attr_ref(e, name) {
        Some(v) => Some(chars_of(v.as_str())),
        None => None,
    }
}

/// The value of attribute `name` of `e`, empty when absent.
pub fn attr_or_blank(e: &Element, name: AttrName) -> (r: Vec<char>)
    ensures
        r@ == attr_or_empty(*e, name),
{
    match attr(e, name) {
        Some(v) => v,
        None => Vec::new(),
    }
}

/// The text of `e`, empty when it has none.
pub fn text_or_blank(e: &Element) -> (r: Vec<char>)
    ensures
        r@ == text_or_empty(*e),
{
    match &e.text {
        Some(t) => chars_of(t.as_str()),
        None => Vec::new(),
    }
}

/// Tries each candidate attribute in order and returns the first value that
/// is non-empty once trimmed, trimmed; empty when none is.
pub fn first_filled(e: &Element, names: &Vec<AttrName>) -> (r: Vec<char>)
    ensures
        r@ == cascade(*e, names@),
{
    let mut i: usize = 0;
    while i < names.len()
        invariant
            i <= names.len(),
            cascade(*e, names@) == cascade_from(*e, names@, i as int),
        decreases names.len() - i,
    {
        if let Some(v) = attr_ref(e, names[i]) {
            let t = trimmed(v.as_str());
            if t.len() > 0 {
                return t;
            }
        }
        i = i + 1;
    }
    Vec::new()
}

} // verus!
