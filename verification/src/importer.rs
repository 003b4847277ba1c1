use vstd::prelude::*;
use vstd::string::StringExecFns;

use crate::external::{parse_url, url_parse, ParsedUrl, UrlView};
use crate::text::{
    after_last_slash, has_prefix, has_suffix, last_segment, str_ends_with, str_equals,
    str_starts_with, trim, trim_spec,
};

verus! {

/// Why an import was refused or failed.
#[derive(Debug, Clone)]
pub enum ImportError {
    /// The address is not a URL.
    InvalidUrl,
    /// The address is a URL, but not of a song page on the accepted host.
    UnsupportedHost,
    /// The song page could not be fetched; the detail says why.
    Download(String),
}

/// The message an [`ImportError`] is shown with.
pub open spec fn import_error_message(e: ImportError) -> Seq<char> {
    match e {
        ImportError::InvalidUrl => "URL inválida"@,
        ImportError::UnsupportedHost => "Apenas links de música do Suno são aceitos"@,
        ImportError::Download(detail) => "Falha ao baixar página: "@ + detail@,
    }
}

impl ImportError {
    /// The message this error is shown with.
    pub fn message(&self) -> (res: String)
        ensures
            res@ == import_error_message(*self),
    {
        match self {
            ImportError::InvalidUrl => String::from_str("URL inválida"),
            ImportError::UnsupportedHost => String::from_str(
                "Apenas links de música do Suno são aceitos",
            ),
            ImportError::Download(detail) => {
                let mut m = String::from_str("Falha ao baixar página: ");
                m.append(detail.as_str());
                m
            },
        }
    }
}

/// The host is the accepted one or one of its subdomains.
pub open spec fn is_suno_host_spec(host: Seq<char>) -> bool {
    host == "suno.com"@ || has_suffix(host, ".suno.com"@)
}

/// The path is that of a song page.
pub open spec fn is_song_path_spec(path: Seq<char>) -> bool {
    has_prefix(path, "/song/"@)
}

/// The URL (by its serialization) uses the `https` scheme.
pub open spec fn is_https_spec(serialization: Seq<char>) -> bool {
    has_prefix(serialization, "https:"@)
}

/// Whether `host` is the accepted host or one of its subdomains.
pub fn is_suno_host(host: &str) -> (res: bool)
    ensures
        res == is_suno_host_spec(host@),
{
    str_equals(host, "suno.com") || str_ends_with(host, ".suno.com")
}

/// The model of an optional parsed URL.
pub open spec fn url_view_opt(p: Option<ParsedUrl>) -> Option<UrlView> {
    match p {
        Some(u) => Some(u@),
        None => None,
    }
}

/// What [`check_suno_song_url`] decides for the outcome of parsing an address.
pub open spec fn check_url_spec(parsed: Option<UrlView>) -> Result<UrlView, ImportError> {
    match parsed {
        None => Err(ImportError::InvalidUrl),
        Some(u) => {
            let is_suno = match u.host {
                Some(h) => is_suno_host_spec(h),
                None => false,
            };
            if is_https_spec(u.serialization) && is_suno && is_song_path_spec(u.path) {
                Ok(u)
            } else {
                Err(ImportError::UnsupportedHost)
            }
        },
    }
}

/// Admits a parsed address only when it is an `https` song page on the
/// accepted host: `None` (the address did not parse) gives `InvalidUrl`; a
/// URL whose scheme is not `https`, whose host is neither `suno.com` nor a
/// subdomain of it, or whose path does not start with `/song/`, gives
/// `UnsupportedHost`; any other URL is returned as it is.
pub fn check_suno_song_url(parsed: Option<ParsedUrl>) -> (res: Result<ParsedUrl, ImportError>)
    ensures
        match (res, check_url_spec(url_view_opt(parsed))) {
            (Ok(u), Ok(v)) => u@ == v && parsed == Some(u),
            (Err(ImportError::InvalidUrl), Err(ImportError::InvalidUrl)) => true,
            (Err(ImportError::UnsupportedHost), Err(ImportError::UnsupportedHost)) => true,
            _ => false,
        },
{
    match parsed {
        None => Err(ImportError::InvalidUrl),
        Some(u) => {
            let is_suno = match &u.host {
                Some(h) => is_suno_host(h.as_str()),
                None => false,
            };
            if str_starts_with(u.serialization.as_str(), "https:") && is_suno && str_starts_with(
                u.path.as_str(),
                "/song/",
            ) {
                Ok(u)
            } else {
                Err(ImportError::UnsupportedHost)
            }
        },
    }
}

/// Validates an address given by a user: it is trimmed of surrounding
/// whitespace, parsed as a URL and admitted only when it is an `https` song
/// page on the accepted host (see [`check_suno_song_url`]).
pub fn validate_suno_song_url(source_url: &str) -> (res: Result<ParsedUrl, ImportError>)
    ensures
        match (res, check_url_spec(url_parse(trim_spec(source_url@)))) {
            (Ok(u), Ok(v)) => u@ == v,
            (Err(ImportError::InvalidUrl), Err(ImportError::InvalidUrl)) => true,
            (Err(ImportError::UnsupportedHost), Err(ImportError::UnsupportedHost)) => true,
            _ => false,
        },
{
    let trimmed = trim(source_url);
    let parsed = match parse_url(trimmed.as_str()) {
        Ok(u) => Some(u),
        Err(_) => None,
    };
    check_suno_song_url(parsed)
}


/// Name of the local file a song's audio is saved under, given the path of its
/// address: the path's last `/`-separated segment (the song's id on a song
/// page) followed by `.mp3`.
pub fn audio_file_name(path: &str) -> (res: String)
    ensures
        res@ == last_segment(path@) + ".mp3"@,
{
    let mut name = after_last_slash(path);
    name.append(".mp3");
    name
}

/// The admission tests mean what they say: a host is accepted exactly when it
/// is `suno.com` or ends in `.suno.com` (a subdomain, the dot included); a path
/// is a song page's exactly when it is `/song/` followed by something; a URL
/// is `https` exactly when its serialization is `https:` followed by something.
pub proof fn law_admission_tests(host: Seq<char>, path: Seq<char>, serialization: Seq<char>)
    ensures
        is_suno_host_spec(host) <==> (host == "suno.com"@ || exists|x: Seq<char>| host == x
            + ".suno.com"@),
        is_song_path_spec(path) <==> exists|t: Seq<char>| path == "/song/"@ + t,
        is_https_spec(serialization) <==> exists|t: Seq<char>| serialization == "https:"@ + t,
{
    crate::text::law_prefix_and_suffix(host, ".suno.com"@);
    crate::text::law_prefix_and_suffix(path, "/song/"@);
    crate::text::law_prefix_and_suffix(serialization, "https:"@);
}

/// Errors are shown with their documented messages: `URL inválida` for an
/// address that is not a URL, `Apenas links de música do Suno são aceitos`
/// for one that is not a song page on the accepted host, and `Falha ao baixar
/// página: ` followed by the detail for a failed download.
pub proof fn law_error_messages(detail: String)
    ensures
        import_error_message(ImportError::InvalidUrl) == "URL inválida"@,
        import_error_message(ImportError::UnsupportedHost)
            == "Apenas links de música do Suno são aceitos"@,
        import_error_message(ImportError::Download(detail)) == "Falha ao baixar página: "@
            + detail@,
{
}

/// Only `https` song pages on the accepted host are admitted: an admitted
/// address uses the `https` scheme, has a host that is `suno.com` or a
/// subdomain of it and a path that starts with `/song/`; `InvalidUrl` comes
/// exactly when the address does not parse.
pub proof fn law_only_song_pages_admitted(parsed: Option<UrlView>)
    ensures
        check_url_spec(parsed) matches Ok(u) ==> {
            &&& is_https_spec(u.serialization)
            &&& u.host matches Some(h) && is_suno_host_spec(h)
            &&& is_song_path_spec(u.path)
            &&& parsed == Some(u)
        },
        (check_url_spec(parsed) matches Err(ImportError::InvalidUrl)) <==> parsed is None,
{
}

/// Surrounding whitespace does not matter to validation: an address and its
/// trimmed form are validated alike.
pub proof fn law_validation_ignores_surrounding_whitespace(source_url: Seq<char>)
    ensures
        check_url_spec(url_parse(trim_spec(trim_spec(source_url)))) == check_url_spec(
            url_parse(trim_spec(source_url)),
        ),
{
    crate::text::law_trim_idempotent(source_url);
}

} // verus!
