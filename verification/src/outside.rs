//! The trusted boundary: the few outside calls the verified code relies on,
//! each behind a declared contract.

use vstd::prelude::*;

use crate::strings::opt_view;

verus! {

/// Relies on std's `String::push`: appends the given character to the end of
/// the string.
pub assume_specification[ String::push ](s: &mut String, c: char)
    ensures
        final(s)@ == old(s)@.push(c),
;

/// Appends one character to `out`.
pub fn push_char(out: &mut String, c: char)
    ensures
        final(out)@ == old(out)@.push(c),
{
    out.push(c);
}

/// The scheme and host that an absolute-URL parse reads off a string; a
/// function of the string alone.  `None` stands for a string that is no
/// absolute URL; the inner option is the host, which some URLs lack.
pub uninterp spec fn scheme_host_of(s: Seq<char>) -> Option<(Seq<char>, Option<Seq<char>>)>;

/// Relies on `url::Url::parse` together with `url::Url::scheme` and
/// `url::Url::host_str`: parsing is deterministic in the input string, the
/// scheme accessor returns the lower-cased scheme and the host accessor the
/// host, if the URL has one.
#[verifier::external_body]
pub(crate) fn parse_scheme_host(input: &str) -> (r: Option<(String, Option<String>)>)
    ensures
        match r {
            Some(p) => scheme_host_of(input@) == Some((p.0@, opt_view(p.1))),
            None => scheme_host_of(input@) is None,
        },
{
    match url::Url::parse(input) {
        Ok(u) => {
            let host = match u.host_str() {
                Some(h) => Some(h.to_owned()),
                None => None,
            };
            Some((u.scheme().to_owned(), host))
        },
        Err(_) => None,
    }
}

} // verus!
