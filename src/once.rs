use std::sync::atomic::AtomicUsize;
use once_cell::sync::OnceCell;
use vstd::prelude::*;

verus! {

/// `once_cell::sync::OnceCell`: a cell that is written at most once, safely
/// under concurrent first use.
#[verifier::external_type_specification]
#[verifier::external_body]
#[verifier::reject_recursive_types(T)]
pub struct ExOnceCell<T>(once_cell::sync::OnceCell<T>);

/// Relies on `OnceCell::new`: an empty cell; nothing runs.
pub assume_specification<T>[ once_cell::sync::OnceCell::<T>::new ]() -> once_cell::sync::OnceCell<T>;

/// What a counter's binding cell holds once it is written, if it ever is.
/// The cell is written at most once, so this never changes over its life.
pub uninterp spec fn binding_content(c: OnceCell<Option<&'static AtomicUsize>>) -> Option<
    Option<&'static AtomicUsize>,
>;

/// What the entry-point cell holds once it is written, if it ever is.
pub uninterp spec fn entry_content(c: OnceCell<Option<usize>>) -> Option<Option<usize>>;

} // verus!
