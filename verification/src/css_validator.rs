//! Typed results of the CSS checker and the request URLs sent to it.

use vstd::prelude::*;

verus! {

use vstd::string::StringExecFns;

/// Default endpoint of the public CSS validation service.
pub const CSS_VALIDATOR_URI: &'static str = "https://jigsaw.w3.org/css-validator/validator";

/// Summary counts as the server reports them, capped at its reporting width.
pub struct CssResult {
    pub errorcount: u8,
    pub warningcount: u8,
}

/// One finding reported by the CSS checker: the originating source, the
/// message text, a 1-based line number, the kind tag the server serialises
/// under `type`, and an optional severity level.
pub struct Message {
    pub source: String,
    pub message: String,
    pub line: u8,
    pub _type: String,
    pub level: Option<u8>,
}

/// The validation report: the checked URI or identifier, the validator
/// identity, the CSS profile, two timestamps, the server's own validity
/// flag, its summary counts, and the warning and error messages where the
/// server sent any.
pub struct CssValidation {
    pub uri: String,
    pub checkedby: String,
    pub csslevel: String,
    pub date: String,
    pub timestamp: String,
    pub validity: bool,
    pub result: CssResult,
    pub warnings: Option<Vec<Message>>,
    pub errors: Option<Vec<Message>>,
}

impl CssValidation {
    /// A report is valid exactly when its error list is absent or empty.
    /// The server's own `validity` flag and summary counts are never
    /// consulted: emptiness of the error list is authoritative.
    pub open spec fn spec_is_valid(&self) -> bool {
        match self.errors {
            Some(errs) => errs@.len() == 0,
            None => true,
        }
    }

    pub fn is_valid(&self) -> (r: bool)
        ensures
            r == self.spec_is_valid(),
    {
        match &self.errors {
            Some(errs) => errs.len() == 0,
            None => true,
        }
    }
}

/// Validity of a CSS report is derived from its error list alone: two
/// reports with the same error list are equally valid, whatever their
/// server-reported `validity` flags, summary counts, or warnings say.
pub proof fn lemma_css_validity_from_errors_only(a: &CssValidation, b: &CssValidation)
    requires
        a.errors == b.errors,
    ensures
        a.spec_is_valid() == b.spec_is_valid(),
{
}

/// Parsed response of the CSS checker, wrapping the single report it sends.
pub struct CssValidatorResult {
    pub cssvalidation: CssValidation,
}

impl CssValidatorResult {
    /// A result is valid exactly when its report is.
    pub open spec fn spec_is_valid(&self) -> bool {
        self.cssvalidation.spec_is_valid()
    }

    pub fn is_valid(&self) -> (r: bool)
        ensures
            r == self.spec_is_valid(),
    {
        self.cssvalidation.is_valid()
    }
}

/// Configuration of a CSS client: the endpoint to send requests to.
pub struct CssValidatorOpts {
    pub validator_uri: String,
}

impl Default for CssValidatorOpts {
    /// The default configuration points at the public CSS validation
    /// service.
    fn default() -> (r: CssValidatorOpts)
        ensures
            r.validator_uri@ == CSS_VALIDATOR_URI@,
    {
        CssValidatorOpts { validator_uri: String::from_str(CSS_VALIDATOR_URI) }
    }
}

/// The URL of a GET request that asks the checker at `endpoint` to validate
/// the style sheet at `uri` and answer in JSON.
pub fn css_uri_request_url(endpoint: &str, uri: &str) -> (r: String)
    ensures
        r@ == endpoint@ + "?uri="@ + uri@ + "&output=json"@,
{
    let url = String::from_str(endpoint);
    let url = url.concat("?uri=");
    let url = url.concat(uri);
    let url = url.concat("&output=json");
    url
}

} // verus!
