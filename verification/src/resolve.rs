//! The delegated URL resolver, specified only at its interface.
//!
//! Segment and variant URIs in a playlist may be relative; the engine
//! resolves each against the playlist's own URL. What a (base, relative)
//! pair resolves to is named by the uninterpreted function
//! [`resolved_url`]: resolution is a function of the two strings alone.

use vstd::prelude::*;

use crate::error::{Error, ErrorKind};

verus! {

/// What the delegated resolver makes of the pair: `None` when the base or
/// the relative reference cannot be parsed, otherwise the absolute URL in
/// its serialized form. The result depends on the two strings alone.
pub uninterp spec fn resolved_url(base: Seq<char>, rel: Seq<char>) -> Option<Seq<char>>;

/// Relies on `url::Url::parse` and `url::ParseOptions::parse`: parses
/// `base` as an absolute URL, resolves `rel` against it, and serializes
/// the result, failing exactly on input the parser rejects.
#[verifier::external_body]
pub(crate) fn resolve_url(base: &str, rel: &str) -> (r: Result<String, Error>)
    ensures
        r is Ok <==> resolved_url(base@, rel@) is Some,
        r matches Ok(u) ==> Some(u@) == resolved_url(base@, rel@),
        r matches Err(e) ==> e@.kind == ErrorKind::InvalidInput && e@.trace.len() == 0,
{
    let b = match url::Url::parse(base) {
        Ok(b) => b,
        Err(e) => return Err(Error::new(ErrorKind::InvalidInput, e.to_string())),
    };
    match url::Url::options().base_url(Some(&b)).parse(rel) {
        Ok(u) => Ok(String::from(u)),
        Err(e) => Err(Error::new(ErrorKind::InvalidInput, e.to_string())),
    }
}

} // verus!
