//! The assertion entry points and every extension trait, in one import.

pub use crate::boolean::BooleanAssertions;
pub use crate::hashmap::HashMapAssertions;
pub use crate::iter::ContainingIntoIterAssertions;
pub use crate::iter::MappingIterAssertions;
pub use crate::numeric::OrderedAssertions;
pub use crate::option::ContainingOptionAssertions;
pub use crate::option::OptionAssertions;
pub use crate::path::PathAssertions;
pub use crate::result::ContainingResultAssertions;
pub use crate::result::ResultAssertions;
pub use crate::string::StrAssertions;
pub use crate::vec::VecAssertions;
pub use crate::{assert_that, asserting};
