//! Bucket-and-prefix addressing: `s3://bucket/prefix` URIs.
//!
//! The URL grammar itself belongs to the `url` crate; what it extracts
//! from a given string is named by uninterpreted functions, and the
//! bucket/prefix logic on top of them is verified.

use vstd::prelude::*;
use vstd::string::{StrSliceExecFns, StringExecFns};

verus! {

/// A bucket in the object store, with an optional key prefix.
#[derive(Debug, PartialEq)]
pub struct S3Path {
    pub bucket: String,
    pub prefix: Option<String>,
}

/// Why a string is not an S3 path.
#[derive(Debug)]
pub enum S3PathError {
    /// The string is not a URL at all.
    UrlParse(url::ParseError),
    /// The URL parsed but has no host to serve as the bucket.
    InvalidS3Uri,
}

#[verifier::external_type_specification]
#[verifier::external_body]
pub struct ExParseError(url::ParseError);

/// The host and path components one URI parses to.
#[derive(Debug)]
pub struct UriParts {
    pub host: Option<String>,
    pub path: String,
}

/// Whether `url`'s parser accepts the string.
pub uninterp spec fn uri_parse_ok(s: Seq<char>) -> bool;

/// The host component `url`'s parser extracts, if the URL has one.
pub uninterp spec fn uri_host(s: Seq<char>) -> Option<Seq<char>>;

/// The path component `url`'s parser extracts.
pub uninterp spec fn uri_path(s: Seq<char>) -> Seq<char>;

/// Relies on url::Url::parse and the accessors Url::host_str and
/// Url::path: whether the string parses, and which host and path it
/// carries, depend on the string alone.
#[verifier::external_body]
fn parse_uri_parts(uri: &str) -> (r: Result<UriParts, url::ParseError>)
    ensures
        r is Ok <==> uri_parse_ok(uri@),
        r matches Ok(p) ==> (p.host is Some <==> uri_host(uri@) is Some),
        r matches Ok(p) ==> (p.host matches Some(h) ==> uri_host(uri@) == Some(h@)),
        r matches Ok(p) ==> p.path@ == uri_path(uri@),
{
    match url::Url::parse(uri) {
        Ok(u) => Ok(
            UriParts { host: u.host_str().map(|h| h.to_string()), path: u.path().to_string() },
        ),
        Err(e) => Err(e),
    }
}

/// The view of an optional string.
pub open spec fn opt_str_view(o: Option<String>) -> Option<Seq<char>> {
    match o {
        Some(s) => Some(s@),
        None => None,
    }
}

/// The prefix a URL path denotes: what follows the leading slash, or
/// nothing when the path is empty, lacks the slash, or is the bare
/// slash.
pub open spec fn spec_prefix_of(path: Seq<char>) -> Option<Seq<char>> {
    if path.len() > 1 && path[0] == '/' {
        Some(path.subrange(1, path.len() as int))
    } else {
        None
    }
}

/// The URI a bucket and prefix print as.
pub open spec fn spec_uri_of(bucket: Seq<char>, prefix: Option<Seq<char>>) -> Seq<char> {
    "s3://"@ + bucket + "/"@ + (match prefix {
        Some(p) => p,
        None => Seq::empty(),
    })
}

/// Strip the leading slash from a parsed URL path; an empty remainder
/// is no prefix at all.
fn strip_prefix_slash(path: &String) -> (r: Option<String>)
    ensures
        opt_str_view(r) == spec_prefix_of(path@),
{
    let n = path.as_str().unicode_len();
    if n > 1 {
        let c = path.as_str().get_char(0);
        if c == '/' {
            let rest = path.as_str().substring_char(1, n);
            return Some(rest.to_owned());
        }
    }
    None
}

/// Parse `s3://bucket/prefix`: the URL's host is the bucket and the
/// path, slash stripped, the prefix.
fn parse_s3_uri(uri: &str) -> (r: Result<S3Path, S3PathError>)
    ensures
        !uri_parse_ok(uri@) ==> (r matches Err(e) && e is UrlParse),
        uri_parse_ok(uri@) && uri_host(uri@) is None ==> (r matches Err(e) && e is InvalidS3Uri),
        uri_parse_ok(uri@) ==> (uri_host(uri@) matches Some(h) ==> (r matches Ok(p) && p.bucket@
            == h && opt_str_view(p.prefix) == spec_prefix_of(uri_path(uri@)))),
    {
    match parse_uri_parts(uri) {
        Err(e) => Err(S3PathError::UrlParse(e)),
        Ok(parts) => match parts.host {
            None => Err(S3PathError::InvalidS3Uri),
            Some(bucket) => {
                let prefix = strip_prefix_slash(&parts.path);
                Ok(S3Path { bucket, prefix })
            },
        },
    }
}

impl S3Path {
    /// Check a bucket and prefix by printing and re-parsing them as a
    /// URI.
    pub fn new(bucket: String, prefix: Option<String>) -> (r: Result<S3Path, S3PathError>)
        ensures
            ({
                let u = spec_uri_of(
                    bucket@,
                    match prefix {
                        Some(p) => Some(p@),
                        None => Some(Seq::empty()),
                    },
                );
                &&& !uri_parse_ok(u) ==> (r matches Err(e) && e is UrlParse)
                &&& uri_parse_ok(u) && uri_host(u) is None ==> (r matches Err(e)
                    && e is InvalidS3Uri)
                &&& uri_parse_ok(u) ==> (uri_host(u) matches Some(h) ==> (r matches Ok(p)
                    && p.bucket@ == h && opt_str_view(p.prefix) == spec_prefix_of(uri_path(u))))
            }),
    {
        let mut uri = String::new();
        uri.append("s3://");
        uri.append(bucket.as_str());
        uri.append("/");
        match &prefix {
            Some(p) => uri.append(p.as_str()),
            None => (),
        }
        proof {
            assert(uri@ == spec_uri_of(
                bucket@,
                match prefix {
                    Some(p) => Some(p@),
                    None => Some(Seq::<char>::empty()),
                },
            ));
        }
        parse_s3_uri(uri.as_str())
    }

    /// Parse an `s3://` URI.
    pub fn from_uri(uri: &str) -> (r: Result<S3Path, S3PathError>)
        ensures
            !uri_parse_ok(uri@) ==> (r matches Err(e) && e is UrlParse),
            uri_parse_ok(uri@) && uri_host(uri@) is None ==> (r matches Err(e)
                && e is InvalidS3Uri),
            uri_parse_ok(uri@) ==> (uri_host(uri@) matches Some(h) ==> (r matches Ok(p)
                && p.bucket@ == h && opt_str_view(p.prefix) == spec_prefix_of(uri_path(uri@)))),
    {
        parse_s3_uri(uri)
    }

    /// Print the path back as an `s3://` URI.
    pub fn uri(&self) -> (r: String)
        ensures
            r@ == spec_uri_of(self.bucket@, opt_str_view(self.prefix)),
    {
        let mut s = String::new();
        s.append("s3://");
        s.append(self.bucket.as_str());
        s.append("/");
        match &self.prefix {
            Some(p) => s.append(p.as_str()),
            None => (),
        }
        s
    }
}

} // verus!
