//! A page reserved for mapping frames temporarily.

use vstd::prelude::*;
use super::Page;

verus! {

/// A page that is reserved for mapping frames temporarily.
pub struct TemporaryPage {
    page: Page,
}

} // verus!
