use vstd::prelude::*;
use vstd::string::StringExecFns;

verus! {

// Remote locations are values of `url::Url`, carried opaquely through the
// engine; the contracts speak of a URL through its serialization.
#[verifier::external_type_specification]
#[verifier::external_body]
pub struct ExUrl(url::Url);

/// The text a `url::Url` serializes to (`url::Url::as_str`); a `Url` value
/// holds exactly this string, so it determines the value.
pub uninterp spec fn url_serialization(u: url::Url) -> Seq<char>;

/// What `url::Url::parse` yields on a string: the serialization of the
/// parsed absolute URL, or `None` where the string is not one. The result
/// depends on the input string alone.
pub uninterp spec fn url_parse(s: Seq<char>) -> Option<Seq<char>>;

/// What `url::Url::join` yields: the serialization of the reference string
/// resolved against a base URL with the given serialization, or `None` where
/// the reference does not resolve. The result depends on the two strings
/// alone, since a base `Url` is determined by its serialization.
pub uninterp spec fn url_join(base: Seq<char>, reference: Seq<char>) -> Option<Seq<char>>;

/// Relies on `url::Url::parse`: parses an absolute URL from a string, a pure
/// function of that string.
#[verifier::external_body]
fn parse_url_raw(s: &str) -> (r: Option<url::Url>)
    ensures
        match r {
            Option::Some(u) => url_parse(s@) == Option::Some(url_serialization(u)),
            Option::None => url_parse(s@) is None,
        },
{
    url::Url::parse(s).ok()
}

/// Relies on `url::Url::join`: resolves a reference string against a base
/// URL, a pure function of the base's serialization and the reference.
#[verifier::external_body]
fn join_url_raw(base: &url::Url, reference: &str) -> (r: Option<url::Url>)
    ensures
        match r {
            Option::Some(u) => url_join(url_serialization(*base), reference@) == Option::Some(
                url_serialization(u),
            ),
            Option::None => url_join(url_serialization(*base), reference@) is None,
        },
{
    base.join(reference).ok()
}

/// Relies on `url::Url::as_str`: returns the URL's serialization.
#[verifier::external_body]
fn url_text_raw(u: &url::Url) -> (r: String)
    ensures
        r@ == url_serialization(*u),
{
    String::from(u.as_str())
}

/// Parses a configured base location (the manifest URL or the patch base
/// URL). `None` where the configured string is not an absolute URL.
pub fn parse_base_url(s: &str) -> (r: Option<url::Url>)
    ensures
        match r {
            Option::Some(u) => url_parse(s@) == Option::Some(url_serialization(u)),
            Option::None => url_parse(s@) is None,
        },
{
    parse_url_raw(s)
}

/// Resolves the remote location of one manifest entry's file: the patch base
/// URL joined with the entry's file name. `None` where the file name does
/// not resolve to a valid URL against that base.
pub fn resolve_patch_file_url(base: &url::Url, file_name: &str) -> (r: Option<String>)
    ensures
        match r {
            Option::Some(s) => url_join(url_serialization(*base), file_name@) == Option::Some(s@),
            Option::None => url_join(url_serialization(*base), file_name@) is None,
        },
{
    match join_url_raw(base, file_name) {
        Option::Some(u) => {
            let text = url_text_raw(&u);
            Option::Some(text)
        },
        Option::None => Option::None,
    }
}

} // verus!
