//! The address of the provider, checked before anything else starts.

use url::Url;
use vstd::prelude::*;
use vstd::string::StringExecFns;

verus! {

/// The text is no absolute URL; `reason` says why.
#[derive(Debug, Clone, PartialEq, Eq)]
pub struct InvalidRpcUrl {
    pub reason: String,
}

/// What parsing makes of a text: the URL in its normal form, or the reason
/// why the text is no absolute URL.
pub uninterp spec fn parsed_url(text: Seq<char>) -> Result<Seq<char>, Seq<char>>;

/// The message of an invalid provider address.
pub open spec fn invalid_rpc_url_message(reason: Seq<char>) -> Seq<char> {
    "Invalid RPC URL, error: "@ + reason
}

/// Calls `url::Url::parse` and hands back the serialization of the URL, or
/// the text of the parse error. Trusted: whether the text parses, and what
/// is handed back, are functions of the text alone, named [`parsed_url`].
#[verifier::external_body]
fn url_parse(text: &str) -> (out: Result<String, String>)
    ensures
        match out {
            Ok(url) => parsed_url(text@) == Ok::<Seq<char>, Seq<char>>(url@),
            Err(reason) => parsed_url(text@) == Err::<Seq<char>, Seq<char>>(reason@),
        },
{
    match Url::parse(text) {
        Ok(url) => Ok(url.into()),
        Err(reason) => Err(reason.to_string()),
    }
}

/// Checks the address of the provider. The answer is the URL in its normal
/// form exactly where the text parses as an absolute URL, else the reason why
/// it does not.
pub fn validate_rpc_url(text: &str) -> (out: Result<String, InvalidRpcUrl>)
    ensures
        match out {
            Ok(url) => parsed_url(text@) == Ok::<Seq<char>, Seq<char>>(url@),
            Err(e) => parsed_url(text@) == Err::<Seq<char>, Seq<char>>(e.reason@),
        },
{
    match url_parse(text) {
        Ok(url) => Ok(url),
        Err(reason) => Err(InvalidRpcUrl { reason }),
    }
}

impl InvalidRpcUrl {
    /// The message shown for an invalid provider address.
    pub fn message(&self) -> (text: String)
        ensures
            text@ == invalid_rpc_url_message(self.reason@),
    {
        let mut text = String::from_str("Invalid RPC URL, error: ");
        text.append(self.reason.as_str());
        text
    }
}

} // verus!
