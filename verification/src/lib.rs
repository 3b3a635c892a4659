pub mod bytes_util;
pub mod jsonval;
pub mod ops;
pub mod question;
pub mod requests;
pub mod textops;

use vstd::prelude::*;

verus! {

/// Generic single-field wrapper, handy for newtype-style adaptation.
pub struct W<T>(pub T);

} // verus!
