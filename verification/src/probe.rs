//! The requests that the engine asks its HTTP client to make.

use crate::text::trim_end;
use vstd::prelude::*;
use vstd::string::StringExecFns;

verus! {

/// The time after which a request is given up, in seconds.
pub const TIMEOUT_SECS: u64 = 5;

/// How the HTTP client is set up for a run.
#[derive(Debug)]
pub struct ProbeSettings {
    /// The time after which a request is given up, in seconds.
    pub timeout_secs: u64,
    /// The name under which the client identifies itself.
    pub user_agent: String,
    /// Whether a certificate that does not validate is accepted. For targets
    /// outside production only.
    pub accept_invalid_certs: bool,
}

/// `ProbeSettings` as plain values.
pub struct ProbeSettingsView {
    pub timeout_secs: u64,
    pub user_agent: Seq<char>,
    pub accept_invalid_certs: bool,
}

impl View for ProbeSettings {
    type V = ProbeSettingsView;

    open spec fn view(&self) -> ProbeSettingsView {
        ProbeSettingsView {
            timeout_secs: self.timeout_secs,
            user_agent: self.user_agent@,
            accept_invalid_certs: self.accept_invalid_certs,
        }
    }
}

impl ProbeSettings {
    /// The settings of every run: the fixed timeout and client name. Only
    /// the validation of certificates can be relaxed.
    pub fn new(accept_invalid_certs: bool) -> (s: ProbeSettings)
        ensures
            s@ == (ProbeSettingsView {
                timeout_secs: TIMEOUT_SECS,
                user_agent: "cdd-core/0.1.0"@,
                accept_invalid_certs,
            }),
    {
        ProbeSettings {
            timeout_secs: TIMEOUT_SECS,
            user_agent: String::from_str(user_agent()),
            accept_invalid_certs,
        }
    }
}

/// The origin that a crafted cross-origin request claims to come from.
pub open spec fn spec_foreign_origin() -> Seq<char> {
    "https://evil.com"@
}

/// The origin that a crafted cross-origin request claims to come from.
pub fn foreign_origin() -> (r: &'static str)
    ensures
        r@ == spec_foreign_origin(),
{
    "https://evil.com"
}

/// The name under which the client identifies itself to every target.
pub fn user_agent() -> (r: &'static str)
    ensures
        r@ == "cdd-core/0.1.0"@,
{
    "cdd-core/0.1.0"
}

/// Whether a status code tells of success: 200 to 299.
pub open spec fn spec_is_success(status: u16) -> bool {
    200 <= status < 300
}

/// Whether a status code tells of success.
pub fn is_success(status: u16) -> (b: bool)
    ensures
        b == spec_is_success(status),
{
    200 <= status && status < 300
}

/// One GET request: the URL, and the header fields to send beyond the
/// client's own, each as name and value.
#[derive(Debug)]
pub struct ProbeRequest {
    pub url: String,
    pub extra_headers: Vec<(String, String)>,
}

/// A `ProbeRequest` as plain values.
pub struct ProbeRequestView {
    pub url: Seq<char>,
    pub extra_headers: Seq<(Seq<char>, Seq<char>)>,
}

/// Header fields as plain values.
pub open spec fn fields_of(fields: Seq<(String, String)>) -> Seq<(Seq<char>, Seq<char>)> {
    Seq::new(fields.len(), |i: int| (fields[i].0@, fields[i].1@))
}

impl View for ProbeRequest {
    type V = ProbeRequestView;

    open spec fn view(&self) -> ProbeRequestView {
        ProbeRequestView { url: self.url@, extra_headers: fields_of(self.extra_headers@) }
    }
}

/// The request for the target itself, with no header added.
pub open spec fn plain_request(target: Seq<char>) -> ProbeRequestView {
    ProbeRequestView { url: target, extra_headers: Seq::empty() }
}

/// The request for the target that claims to come from `origin`.
pub open spec fn origin_request(target: Seq<char>, origin: Seq<char>) -> ProbeRequestView {
    ProbeRequestView { url: target, extra_headers: seq![("Origin"@, origin)] }
}

/// The URL of `path` below the target: the target without the slashes at its
/// end, one slash, and the path.
pub open spec fn path_url(target: Seq<char>, path: Seq<char>) -> Seq<char> {
    trim_end(target, '/') + "/"@ + path
}

/// The request for `path` below the target.
pub open spec fn path_request(target: Seq<char>, path: Seq<char>) -> ProbeRequestView {
    ProbeRequestView { url: path_url(target, path), extra_headers: Seq::empty() }
}

impl ProbeRequest {
    /// The request for the target itself.
    pub fn plain(target: &str) -> (r: ProbeRequest)
        ensures
            r@ == plain_request(target@),
    {
        let r = ProbeRequest { url: String::from_str(target), extra_headers: Vec::new() };
        assert(r@.extra_headers =~= Seq::empty());
        r
    }

    /// The request for the target that claims to come from `origin`.
    pub fn with_origin(target: &str, origin: &str) -> (r: ProbeRequest)
        ensures
            r@ == origin_request(target@, origin@),
    {
        let mut extra_headers: Vec<(String, String)> = Vec::new();
        extra_headers.push((String::from_str("Origin"), String::from_str(origin)));
        let r = ProbeRequest { url: String::from_str(target), extra_headers };
        assert(r@.extra_headers =~= seq![("Origin"@, origin@)]);
        r
    }

    /// The request for `path` below the target.
    pub fn for_path(target: &str, path: &str) -> (r: ProbeRequest)
        ensures
            r@ == path_request(target@, path@),
    {
        let base = crate::text::trim_end_matches(target, '/');
        let url = String::from_str(base).concat("/").concat(path);
        let r = ProbeRequest { url, extra_headers: Vec::new() };
        assert(r@.extra_headers =~= Seq::empty());
        r
    }
}

} // verus!
