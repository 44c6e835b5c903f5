use vstd::prelude::*;

pub mod agreement;
pub mod builders;
pub mod bundle_layout;
pub mod configuration;
pub mod cpp;
pub mod entries;
pub mod rust;
pub mod template;
pub mod text;
pub mod validation;

verus! {
} // verus!
