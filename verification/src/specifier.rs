//! Normalization of dependency and interpreter-version specifiers.
//!
//! A dependency token is canonicalized by rewriting every `@` separator to
//! the exact-version comparator `==`; nothing else changes and the rewrite
//! cannot fail. A version token must parse under the standard Python
//! version scheme and carry at most two release segments (major.minor); on
//! success it is re-serialized to the scheme's canonical form.

use vstd::prelude::*;

use crate::error::CliError;

verus! {

/// The canonical form of a dependency token: every `@` becomes `==`,
/// every other character passes through unchanged, in order.
pub open spec fn normalize_dependency(s: Seq<char>) -> Seq<char>
    decreases s.len(),
{
    if s.len() == 0 {
        Seq::empty()
    } else if s[0] == '@' {
        seq!['=', '='] + normalize_dependency(s.skip(1))
    } else {
        seq![s[0]] + normalize_dependency(s.skip(1))
    }
}

/// Relies on String::push: appends exactly the given character.
#[verifier::external_body]
pub(crate) fn push_char(s: &mut String, c: char)
    ensures
        final(s)@ == old(s)@.push(c),
{
    s.push(c);
}

/// A normalized dependency specifier, e.g. `requests==2.28`.
#[derive(Debug, Clone, PartialEq, Eq)]
pub struct Dependency {
    inner: String,
}

impl View for Dependency {
    type V = Seq<char>;

    closed spec fn view(&self) -> Seq<char> {
        self.inner@
    }
}

impl DeepView for Dependency {
    type V = Seq<char>;

    closed spec fn deep_view(&self) -> Seq<char> {
        self.inner@
    }
}

/// A dependency's deep view is its view: the canonical character
/// sequence.
pub broadcast proof fn lemma_dependency_views_agree(d: Dependency)
    ensures
        #[trigger] d.deep_view() == d@,
{
}

impl Dependency {
    /// Builds the specifier from a raw token, rewriting `@` to `==`.
    /// Any token is accepted; name validation belongs downstream.
    pub fn from_str(s: &str) -> (d: Dependency)
        ensures
            d@ == normalize_dependency(s@),
    {
        let n = s.unicode_len();
        let mut out = String::new();
        let mut i: usize = 0;
        proof {
            assert(s@.skip(0) =~= s@);
            assert(out@ + normalize_dependency(s@) =~= normalize_dependency(s@));
        }
        while i < n
            invariant
                n == s@.len(),
                i <= n,
                out@ + normalize_dependency(s@.skip(i as int)) == normalize_dependency(s@),
            decreases n - i,
        {
            let c = s.get_char(i);
            proof {
                let t = s@.skip(i as int);
                assert(t[0] == s@[i as int]);
                assert(t.skip(1) =~= s@.skip(i + 1));
            }
            if c == '@' {
                push_char(&mut out, '=');
                push_char(&mut out, '=');
                proof {
                    assert(out@ =~= (out@.drop_last().drop_last())
                        + seq!['=', '=']);
                }
            } else {
                push_char(&mut out, c);
                proof {
                    assert(out@ =~= out@.drop_last() + seq![c]);
                }
            }
            i = i + 1;
            proof {
                assert(out@ + normalize_dependency(s@.skip(i as int))
                    =~= normalize_dependency(s@));
            }
        }
        proof {
            assert(s@.skip(n as int) =~= Seq::empty());
            assert(out@ =~= normalize_dependency(s@));
        }
        Dependency { inner: out }
    }

    /// The canonical specifier text.
    pub fn to_string(&self) -> (r: String)
        ensures
            r@ == self@,
    {
        self.inner.clone()
    }
}

/// Normalized characters never include `@`.
pub proof fn lemma_normalize_no_at(s: Seq<char>)
    ensures
        forall|i: int|
            0 <= i < normalize_dependency(s).len() ==> normalize_dependency(s)[i] != '@',
    decreases s.len(),
{
    if s.len() > 0 {
        lemma_normalize_no_at(s.skip(1));
        let rest = normalize_dependency(s.skip(1));
        if s[0] == '@' {
            assert forall|i: int|
                0 <= i < normalize_dependency(s).len() implies normalize_dependency(s)[i]
                != '@' by {
                if i >= 2 {
                    assert(normalize_dependency(s)[i] == rest[i - 2]);
                }
            }
        } else {
            assert forall|i: int|
                0 <= i < normalize_dependency(s).len() implies normalize_dependency(s)[i]
                != '@' by {
                if i >= 1 {
                    assert(normalize_dependency(s)[i] == rest[i - 1]);
                }
            }
        }
    }
}

/// A token without `@` is already canonical: normalization returns it
/// unchanged.
pub proof fn lemma_normalize_without_at_identity(s: Seq<char>)
    requires
        forall|i: int| 0 <= i < s.len() ==> s[i] != '@',
    ensures
        normalize_dependency(s) == s,
    decreases s.len(),
{
    if s.len() == 0 {
        assert(normalize_dependency(s) =~= s);
    } else {
        assert(forall|i: int| 0 <= i < s.skip(1).len() ==> s.skip(1)[i] != '@');
        lemma_normalize_without_at_identity(s.skip(1));
        assert(normalize_dependency(s) =~= s);
    }
}

/// Dependency normalization is idempotent: the first pass removes every
/// `@`, so a second pass has nothing left to rewrite.
pub proof fn lemma_normalize_idempotent(s: Seq<char>)
    ensures
        normalize_dependency(normalize_dependency(s)) == normalize_dependency(s),
{
    lemma_normalize_no_at(s);
    lemma_normalize_without_at_identity(normalize_dependency(s));
}

/// What parsing a token under the version scheme yields: nothing when the
/// token does not conform, otherwise the release segment count paired with
/// the canonical re-serialization. Both depend on the token alone.
pub uninterp spec fn pep440_parse(s: Seq<char>) -> Option<(nat, Seq<char>)>;

/// Relies on pep440_rs::Version::from_str (parses a token under the
/// standard Python version scheme, failing exactly when the token does not
/// conform), Version::release (the release segments) and Version's Display
/// impl (the normalized serialization). All three depend on the token
/// alone.
#[verifier::external_body]
fn parse_pep440(s: &str) -> (r: Option<(usize, String)>)
    ensures
        match pep440_parse(s@) {
            Some(p) => r matches Some(q) && q.0 as nat == p.0 && q.1@ == p.1,
            None => r is None,
        },
{
    match <pep440_rs::Version as core::str::FromStr>::from_str(s) {
        Ok(v) => Some((v.release().len(), v.to_string())),
        Err(_) => None,
    }
}

/// A validated interpreter version, canonical and at most major.minor.
#[derive(Debug, Clone, PartialEq, Eq)]
pub struct PythonVersion {
    inner: String,
}

impl View for PythonVersion {
    type V = Seq<char>;

    closed spec fn view(&self) -> Seq<char> {
        self.inner@
    }
}

impl PythonVersion {
    /// Parses and validates a version token. A token outside the version
    /// scheme fails with the parse error; one with three or more release
    /// segments fails with the granularity error carrying the token; any
    /// other conforming token succeeds with its canonical form.
    pub fn from_str(s: &str) -> (r: Result<PythonVersion, CliError>)
        ensures
            match pep440_parse(s@) {
                None => r == Result::<PythonVersion, CliError>::Err(CliError::VersionParse),
                Some(p) => if p.0 > 2 {
                    &&& r matches Err(e)
                    &&& e matches CliError::VersionGranularity { token } && token@ == s@
                } else {
                    r matches Ok(v) && v@ == p.1
                },
            },
    {
        match parse_pep440(s) {
            None => Err(CliError::VersionParse),
            Some((count, canonical)) => {
                if count > 2 {
                    Err(CliError::VersionGranularity { token: s.to_owned() })
                } else {
                    Ok(PythonVersion { inner: canonical })
                }
            },
        }
    }

    /// The canonical version text.
    pub fn to_string(&self) -> (r: String)
        ensures
            r@ == self@,
    {
        self.inner.clone()
    }
}

} // verus!
