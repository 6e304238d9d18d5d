//! Views of optional values, results and lists, taken element by element.
use vstd::prelude::*;

verus! {

/// What an optional value holds.
pub open spec fn option_view<T: View>(value: Option<T>) -> Option<T::V> {
    match value {
        Some(value) => Some(value@),
        None => None,
    }
}

/// What a result holds.
pub open spec fn result_view<T: View, E: View>(value: Result<T, E>) -> Result<T::V, E::V> {
    match value {
        Ok(value) => Ok(value@),
        Err(error) => Err(error@),
    }
}

/// What a list holds.
pub open spec fn list_view<T: View>(items: Seq<T>) -> Seq<T::V> {
    Seq::new(items.len(), |i: int| items[i]@)
}

/// A copy of an optional text.
pub(crate) fn copy_text(text: &Option<String>) -> (copy: Option<String>)
    ensures
        copy == *text,
{
    match text {
        Some(text) => Some(text.clone()),
        None => None,
    }
}

} // verus!
