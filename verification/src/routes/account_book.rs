//! Account books: the bodies of the account book endpoints.

use vstd::prelude::*;

verus! {

/// The filter of the account book list; it has no fields yet.
#[derive(Debug)]
pub struct FilterAccountBooksDto {}

/// An account book as listed; it has no fields yet.
#[derive(Debug)]
pub struct AccountBookDto {}

/// The body of a request to create an account book; it has no fields yet.
#[derive(Debug)]
pub struct CreateAccountBookDto {}

/// The answer to the creation of an account book; it has no fields yet.
#[derive(Debug)]
pub struct CreateAccountBookResponseDto {}

} // verus!
