//! Client-side logic for the World Wide Web Consortium's online validation
//! services: typed results for the markup (Nu) checker and the CSS checker,
//! validity predicates over them, request-URL construction, and the rules
//! that turn an HTTP response into a present or absent result.

pub mod css_validator;
pub mod nu_validator;
pub mod outcome;

pub use css_validator::CssValidatorResult;
pub use css_validator::CSS_VALIDATOR_URI;
pub use nu_validator::NuValidatorResult;
pub use nu_validator::MARKUP_VALIDATOR_URI;
