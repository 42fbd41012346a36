//! Typed results of the markup (Nu) checker and the request URLs sent to it.

use vstd::prelude::*;

verus! {

use vstd::string::StringExecFns;

/// Default endpoint of the public markup validation service.
pub const MARKUP_VALIDATOR_URI: &'static str = "https://validator.w3.org/nu/";

/// Content type sent with a raw-document submission.
pub const TEXT_HTML_UTF_8: &'static str = "text/html; charset=utf-8";

/// Identifying user-agent string sent with every request.
pub const USER_AGENT_STRING: &'static str = "w3c_validators v0.1.0 (https://crates.io/crates/w3c_validators)";

/// One finding reported by the markup checker: a kind tag (`error`,
/// `warning`, `info`, or another server-defined kind), the message text, and
/// optional location and extract details.
pub struct Message {
    pub _type: String,
    pub last_line: Option<u8>,
    pub last_column: Option<u8>,
    pub first_column: Option<u8>,
    pub sub_type: Option<String>,
    pub message: String,
    pub extract: Option<String>,
    pub hilite_start: Option<u8>,
    pub hilite_length: Option<u8>,
}

impl Message {
    /// A message is an error exactly when its kind tag is the string `error`.
    pub open spec fn spec_is_error(&self) -> bool {
        self._type@ == "error"@
    }

    /// A message is a warning exactly when its kind tag is the string `warning`.
    pub open spec fn spec_is_warning(&self) -> bool {
        self._type@ == "warning"@
    }

    pub fn is_error(&self) -> (r: bool)
        ensures
            r == self.spec_is_error(),
    {
        self._type == String::from_str("error")
    }

    pub fn is_warning(&self) -> (r: bool)
        ensures
            r == self.spec_is_warning(),
    {
        self._type == String::from_str("warning")
    }
}

/// Kind classification is a pure comparison against the kind tag: no tag is
/// both an error and a warning, and a tag other than `error` and `warning`
/// is neither.
pub proof fn lemma_kind_classification(m: &Message)
    ensures
        !(m.spec_is_error() && m.spec_is_warning()),
        m._type@ != "error"@ ==> !m.spec_is_error(),
        m._type@ != "warning"@ ==> !m.spec_is_warning(),
{
    reveal_strlit("error");
    reveal_strlit("warning");
    assert("error"@.len() != "warning"@.len());
}

/// Parsed response of the markup checker: the checked URL where one was
/// submitted, the messages in server-reported order, and the detected
/// language where the server reported one.
pub struct NuValidatorResult {
    pub url: Option<String>,
    pub messages: Vec<Message>,
    pub language: Option<String>,
}

impl NuValidatorResult {
    /// A result is valid exactly when no message of it is an error.
    pub open spec fn spec_is_valid(&self) -> bool {
        forall|i: int| 0 <= i < self.messages@.len() ==> !self.messages@[i].spec_is_error()
    }

    pub fn is_valid(&self) -> (r: bool)
        ensures
            r == self.spec_is_valid(),
    {
        let mut idx: usize = 0;
        while idx < self.messages.len()
            invariant
                idx <= self.messages@.len(),
                forall|i: int| 0 <= i < idx ==> !self.messages@[i].spec_is_error(),
            decreases self.messages@.len() - idx,
        {
            if self.messages[idx].is_error() {
                return false;
            }
            idx += 1;
        }
        true
    }
}

/// A markup result with some error message among its messages is invalid,
/// and one with none is valid, whatever its other content.
pub proof fn lemma_markup_validity(r: &NuValidatorResult)
    ensures
        !r.spec_is_valid() <==> (exists|i: int|
            0 <= i < r.messages@.len() && r.messages@[i].spec_is_error()),
{
}

/// Validity of a markup result is decided by the kind tags of its messages
/// alone: the checked URL, the language, and every other message field are
/// immaterial to it.
pub proof fn lemma_markup_validity_from_kinds_only(a: &NuValidatorResult, b: &NuValidatorResult)
    requires
        a.messages@.len() == b.messages@.len(),
        forall|i: int| 0 <= i < a.messages@.len() ==> a.messages@[i]._type == b.messages@[i]._type,
    ensures
        a.spec_is_valid() == b.spec_is_valid(),
{
    assert forall|i: int| 0 <= i < a.messages@.len() implies a.messages@[i].spec_is_error()
        == b.messages@[i].spec_is_error() by {
        assert(a.messages@[i]._type == b.messages@[i]._type);
    }
}

/// Configuration of a markup client: the endpoint to send requests to.
pub struct NuValidatorOpts {
    pub validator_uri: String,
}

impl Default for NuValidatorOpts {
    /// The default configuration points at the public markup validation
    /// service.
    fn default() -> (r: NuValidatorOpts)
        ensures
            r.validator_uri@ == MARKUP_VALIDATOR_URI@,
    {
        NuValidatorOpts { validator_uri: String::from_str(MARKUP_VALIDATOR_URI) }
    }
}

/// The URL of a GET request that asks the checker at `endpoint` to validate
/// the document at `doc_uri` and answer in JSON.
pub fn markup_uri_request_url(endpoint: &str, doc_uri: &str) -> (r: String)
    ensures
        r@ == endpoint@ + "?doc="@ + doc_uri@ + "&out=json"@,
{
    let url = String::from_str(endpoint);
    let url = url.concat("?doc=");
    let url = url.concat(doc_uri);
    let url = url.concat("&out=json");
    url
}

/// The URL of a POST request that submits a raw document to the checker at
/// `endpoint` and asks for a JSON answer.
pub fn markup_text_request_url(endpoint: &str) -> (r: String)
    ensures
        r@ == endpoint@ + "?out=json"@,
{
    let url = String::from_str(endpoint);
    let url = url.concat("?out=json");
    url
}

} // verus!
