//! Authorities: the `host[:port]` part of a request target.

use vstd::prelude::*;
use vstd::std_specs::cmp::PartialEqSpecImpl;

verus! {

/// Whether `http` accepts `text` as an authority on its own: `text` is not
/// empty and `http::uri::Authority`'s parser consumes all of it.
pub uninterp spec fn valid_authority(text: Seq<char>) -> bool;

/// Runs `<http::uri::Authority as FromStr>::from_str` on `text` and reports
/// whether it succeeded. The parser reads nothing but its argument, so the
/// answer is the same for the same text; `valid_authority` is the name of
/// that answer.
#[verifier::external_body]
fn http_accepts_authority(text: &str) -> (ok: bool)
    ensures
        ok == valid_authority(text@),
{
    text.parse::<http::uri::Authority>().is_ok()
}

/// A syntactically valid authority, kept as the text it was parsed from.
#[derive(Debug, Hash)]
pub struct Authority {
    text: String,
}

impl View for Authority {
    type V = Seq<char>;

    closed spec fn view(&self) -> Seq<char> {
        self.text@
    }
}

impl Authority {
    #[verifier::type_invariant]
    spec fn well_formed(self) -> bool {
        valid_authority(self.text@)
    }

    /// Parses `text` as an authority. Succeeds exactly on the texts that
    /// `http` accepts, and keeps the text as it was given.
    pub fn parse(text: &str) -> (parsed: Option<Authority>)
        ensures
            parsed is Some <==> valid_authority(text@),
            parsed matches Some(a) ==> a@ == text@,
    {
        if http_accepts_authority(text) {
            Some(Authority { text: text.to_owned() })
        } else {
            None
        }
    }

    /// The authority's text, which the parser accepted.
    pub fn as_str(&self) -> (text: &str)
        ensures
            text@ == self@,
            valid_authority(text@),
    {
        proof {
            use_type_invariant(self);
        }
        self.text.as_str()
    }
}

impl Clone for Authority {
    fn clone(&self) -> (copy: Authority)
        ensures
            copy@ == self@,
    {
        proof {
            use_type_invariant(self);
        }
        Authority { text: self.text.clone() }
    }
}

impl PartialEq for Authority {
    fn eq(&self, other: &Authority) -> (same: bool) {
        self.text == other.text
    }
}

impl Eq for Authority {}

impl PartialEqSpecImpl for Authority {
    open spec fn obeys_eq_spec() -> bool {
        true
    }

    open spec fn eq_spec(&self, other: &Authority) -> bool {
        self@ == other@
    }
}

} // verus!
