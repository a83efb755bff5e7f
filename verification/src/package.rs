//! Package references: `<name>`, `<name>@<version>`, a direct URL, or a
//! local file path, and the registry URL a named reference resolves to.

use vstd::prelude::*;
use crate::text::count_char;
use crate::text::count_char_in;
use crate::text::find_char;
use crate::text::idx_of_first;
use crate::text::str_eq;

verus! {

/// Why a package reference was rejected.
#[derive(Debug, Clone, PartialEq, Eq)]
pub enum PackageRefError {
    /// More than one `@` in the reference.
    MalformedReference,
    /// The package name is not a valid module name.
    InvalidName,
    /// The version is neither empty, `latest`, nor valid semantic-version
    /// text.
    InvalidVersion,
}

/// Is `c` an ASCII letter?
pub open spec fn is_ascii_alpha(c: char) -> bool {
    ('a' <= c && c <= 'z') || ('A' <= c && c <= 'Z')
}

/// May `c` appear in a module name after the first character?
pub open spec fn is_name_char(c: char) -> bool {
    is_ascii_alpha(c) || ('0' <= c && c <= '9') || c == '_' || c == '-'
}

/// A valid module or package name: one ASCII letter followed by at most 63
/// letters, digits, underscores or hyphens.
pub open spec fn is_module_name(s: Seq<char>) -> bool {
    1 <= s.len() <= 64 && is_ascii_alpha(s[0]) && forall|i: int|
        1 <= i < s.len() ==> is_name_char(#[trigger] s[i])
}

/// Relies on `regex::Regex::is_match` with the anchored pattern
/// `^([a-zA-Z][a-zA-Z0-9_-]{0,63})$`: it accepts exactly the strings made of
/// one ASCII letter followed by up to 63 ASCII letters, digits, `_` or `-`.
#[verifier::external_body]
fn module_name_matches(s: &str) -> (r: bool)
    ensures
        r == is_module_name(s@),
{
    regex::Regex::new("^([a-zA-Z][a-zA-Z0-9_-]{0,63})$").unwrap().is_match(s)
}

/// Whether `semver::Version::parse` accepts this text; a function of the
/// characters alone.
pub uninterp spec fn semver_accepts(s: Seq<char>) -> bool;

/// Relies on `semver::Version::parse`: it accepts or rejects the text
/// deterministically, from its characters alone, and never panics.
#[verifier::external_body]
fn is_valid_version(version: &str) -> (r: bool)
    ensures
        r == semver_accepts(version@),
{
    semver::Version::parse(version).is_ok()
}

/// `s` with every occurrence of `c` removed.
pub open spec fn remove_char(s: Seq<char>, c: char) -> Seq<char>
    decreases s.len(),
{
    if s.len() == 0 {
        s
    } else {
        remove_char(s.drop_last(), c) + if s.last() == c {
            Seq::<char>::empty()
        } else {
            seq![s.last()]
        }
    }
}

/// Remove every occurrence of `c` from `s`.
fn remove_char_exec(s: &str, c: char) -> (r: String)
    ensures
        r@ == remove_char(s@, c),
{
    let n = s.unicode_len();
    let mut out = String::new();
    let mut i: usize = 0;
    while i < n
        invariant
            i <= n,
            n == s@.len(),
            out@ == remove_char(s@.take(i as int), c),
        decreases n - i,
    {
        proof {
            assert(s@.take(i + 1).drop_last() =~= s@.take(i as int));
        }
        if s.get_char(i) != c {
            let piece = s.substring_char(i, i + 1);
            out.append(piece);
            proof {
                assert(piece@ =~= seq![s@[i as int]]);
                assert(out@ =~= remove_char(s@.take(i + 1), c));
            }
        } else {
            proof {
                assert(out@ =~= remove_char(s@.take(i + 1), c));
            }
        }
        i = i + 1;
    }
    proof {
        assert(s@.take(n as int) =~= s@);
    }
    out
}

/// The name and version a package reference denotes, or why it is rejected.
/// A missing, empty or `latest` version resolves to `latest`; any other
/// version must be valid semantic-version text once every `v` is removed.
pub open spec fn package_ref_spec(s: Seq<char>) -> Result<
    (Seq<char>, Seq<char>),
    PackageRefError,
> {
    if count_char(s, '@') >= 2 {
        Err(PackageRefError::MalformedReference)
    } else {
        let k = idx_of_first(s, '@');
        let name = s.take(k);
        if !is_module_name(name) {
            Err(PackageRefError::InvalidName)
        } else if k == s.len() || s.skip(k + 1).len() == 0 || s.skip(k + 1) == "latest"@ {
            Ok((name, "latest"@))
        } else if semver_accepts(remove_char(s.skip(k + 1), 'v')) {
            Ok((name, s.skip(k + 1)))
        } else {
            Err(PackageRefError::InvalidVersion)
        }
    }
}

/// Split a `<package>@<version>` reference and validate both parts.
pub fn parse_standard_package_and_version(input: &str) -> (r: Result<
    (String, String),
    PackageRefError,
>)
    ensures
        match r {
            Ok(nv) => package_ref_spec(input@) == Ok::<_, PackageRefError>((nv.0@, nv.1@)),
            Err(e) => package_ref_spec(input@) == Err::<(Seq<char>, Seq<char>), _>(e),
        },
{
    if count_char_in(input, '@') >= 2 {
        return Err(PackageRefError::MalformedReference);
    }
    let n = input.unicode_len();
    let k = find_char(input, '@');
    let name = input.substring_char(0, k);
    proof {
        assert(name@ =~= input@.take(k as int));
    }
    if !module_name_matches(name) {
        return Err(PackageRefError::InvalidName);
    }
    if k == n {
        return Ok((String::from_str(name), String::from_str("latest")));
    }
    let version = input.substring_char(k + 1, n);
    proof {
        assert(version@ =~= input@.skip(k as int + 1));
    }
    if version.unicode_len() == 0 || str_eq(version, "latest") {
        return Ok((String::from_str(name), String::from_str("latest")));
    }
    let stripped = remove_char_exec(version, 'v');
    if is_valid_version(stripped.as_str()) {
        Ok((String::from_str(name), String::from_str(version)))
    } else {
        Err(PackageRefError::InvalidVersion)
    }
}

/// Does the text begin with `http`?
pub open spec fn starts_http(s: Seq<char>) -> bool {
    s.len() >= 4 && s[0] == 'h' && s[1] == 't' && s[2] == 't' && s[3] == 'p'
}

/// Check for a leading `http`, as in `http://` and `https://` URLs.
pub fn starts_with_http(s: &str) -> (r: bool)
    ensures
        r == starts_http(s@),
{
    if s.unicode_len() < 4 {
        return false;
    }
    s.get_char(0) == 'h' && s.get_char(1) == 't' && s.get_char(2) == 't' && s.get_char(3) == 'p'
}

/// Where the package descriptor must be fetched from.
#[derive(Debug, Clone, PartialEq, Eq)]
pub enum PackageSource {
    /// Download from the package registry.
    RegistryUrl(String),
    /// Download from the given URL.
    HttpUrl(String),
    /// Read from the local filesystem.
    LocalFile(String),
}

/// The registry URL that a named package and version resolve to.
pub fn registry_package_url(name: &str, version: &str) -> (r: String)
    ensures
        r@ == "https://spkg.io/v1/packages/"@ + name@ + "/"@ + version@,
{
    String::from_str("https://spkg.io/v1/packages/").concat(name).concat("/").concat(version)
}

/// Decide where the package descriptor lives: a `<name>@<version>` registry
/// reference, a direct URL, or a local file path.
pub fn resolve_package_source(input: &str) -> (s: PackageSource)
    ensures
        match s {
            PackageSource::RegistryUrl(u) => match package_ref_spec(input@) {
                Ok(nv) => u@ == "https://spkg.io/v1/packages/"@ + nv.0 + "/"@ + nv.1,
                Err(_) => false,
            },
            PackageSource::HttpUrl(u) => package_ref_spec(input@) is Err && starts_http(input@)
                && u@ == input@,
            PackageSource::LocalFile(p) => package_ref_spec(input@) is Err && !starts_http(input@)
                && p@ == input@,
        },
{
    match parse_standard_package_and_version(input) {
        Ok((name, version)) => PackageSource::RegistryUrl(
            registry_package_url(name.as_str(), version.as_str()),
        ),
        Err(_) => {
            if starts_with_http(input) {
                PackageSource::HttpUrl(String::from_str(input))
            } else {
                PackageSource::LocalFile(String::from_str(input))
            }
        },
    }
}

/// Prefix the endpoint with `https://` unless a scheme is already there.
pub fn normalize_endpoint_url(url: &str) -> (r: String)
    ensures
        r@ == if starts_http(url@) {
            url@
        } else {
            "https://"@ + url@
        },
{
    if starts_with_http(url) {
        String::from_str(url)
    } else {
        String::from_str("https://").concat(url)
    }
}

} // verus!
