//! The client of the CDS API: which request each call sends, and how a
//! request is dressed before it leaves.
use crate::sdk::auth::{good_at, AuthClaims};
use crate::sdk::error::Error;
use crate::text::{chars_of, contains_text, find_text, matches_at, occurs_at};
use regex::Regex;
use vstd::prelude::*;

verus! {

/// The routes on which a session is opened, as a pattern.
pub const SIGNIN_ROUTES: &'static str = "/auth/consumer/.*/signin";

/// A request to the API: its method and its path below the host.
#[derive(Debug)]
pub struct Request {
    pub method: String,
    pub path: String,
}

/// The mathematical value of a [`Request`].
pub struct RequestView {
    pub method: Seq<char>,
    pub path: Seq<char>,
}

impl View for Request {
    type V = RequestView;

    open spec fn view(&self) -> RequestView {
        RequestView { method: self.method@, path: self.path@ }
    }
}

/// The request that reads a path.
pub open spec fn get(path: Seq<char>) -> RequestView {
    RequestView { method: "GET"@, path: path }
}

/// The request that writes to a path.
pub open spec fn post(path: Seq<char>) -> RequestView {
    RequestView { method: "POST"@, path: path }
}

/// Whether a request to this address goes out under a session: every one
/// does but those that sign in or up, or verify an account.
pub open spec fn under_session(uri: Seq<char>) -> bool {
    &&& !contains_text(uri, "/auth/consumer/builtin/signin"@)
    &&& !contains_text(uri, "/auth/consumer/local/signin"@)
    &&& !contains_text(uri, "/auth/consumer/local/signup"@)
    &&& !contains_text(uri, "/auth/consumer/local/verify"@)
    &&& !contains_text(uri, "/auth/consumer/worker/signin"@)
}

/// Whether `pat` stands somewhere in `hay`.
pub fn holds(hay: &Vec<char>, pat: &str) -> (r: bool)
    ensures
        r == contains_text(hay@, pat@),
{
    let p = chars_of(pat);
    match find_text(hay, &p) {
        Some(at) => {
            assert(occurs_at(hay@, pat@, at as int));
            true
        },
        None => false,
    }
}

/// Whether `s` begins with `pat`.
pub fn starts_with(s: &str, pat: &str) -> (r: bool)
    ensures
        r == occurs_at(s@, pat@, 0),
{
    let hay = chars_of(s);
    let p = chars_of(pat);
    if p.len() > hay.len() {
        false
    } else {
        matches_at(&hay, &p, 0)
    }
}

/// Whether a request to this address goes out under a session.
pub fn goes_under_session(uri: &str) -> (r: bool)
    ensures
        r == under_session(uri@),
{
    let hay = chars_of(uri);
    !holds(&hay, "/auth/consumer/builtin/signin") && !holds(&hay, "/auth/consumer/local/signin")
        && !holds(&hay, "/auth/consumer/local/signup") && !holds(
        &hay,
        "/auth/consumer/local/verify",
    ) && !holds(&hay, "/auth/consumer/worker/signin")
}

/// Whether a text matches a pattern somewhere, or `None` for a pattern that
/// is refused.
pub uninterp spec fn pattern_match(pattern: Seq<char>, text: Seq<char>) -> Option<bool>;

/// Searches a text with `regex::Regex::new` and `regex::Regex::is_match`.
/// Trusted: whether the pattern is accepted and whether it matches depend on
/// the pattern and the text alone.
#[verifier::external_body]
fn search(pattern: &str, text: &str) -> (r: Option<bool>)
    ensures
        r == pattern_match(pattern@, text@),
{
    match Regex::new(pattern) {
        Ok(re) => Some(re.is_match(text)),
        Err(_) => None,
    }
}

/// How one request leaves: to which address, by which method, and whether a
/// session must be opened first.
#[derive(Debug)]
pub struct Exchange {
    pub uri: String,
    pub method: String,
    pub renew: bool,
}

/// The client of the CDS API.
#[derive(Debug)]
pub struct Client {
    /// A name for this client, to tell several apart.
    pub name: String,
    pub host: String,
    pub token: String,
    /// The token of the open session; empty where none is open.
    pub session_token: String,
    pub hash: String,
    pub insecure_skip_verify_tls: bool,
}

impl Default for Client {
    fn default() -> (r: Client)
        ensures
            r.is_blank(),
    {
        Client {
            name: String::new(),
            host: String::new(),
            token: String::new(),
            session_token: String::new(),
            hash: String::new(),
            insecure_skip_verify_tls: false,
        }
    }
}

/// The value of the `Authorization` header for a session.
pub open spec fn bearer(session: Seq<char>) -> Seq<char> {
    "Bearer "@ + session
}

/// The headers of every request.
pub open spec fn plain_headers() -> Seq<(Seq<char>, Seq<char>)> {
    seq![
        ("Content-Type"@, "application/json"@),
        ("User-Agent"@, "CDS/sdk"@),
        ("X-Requested-With"@, "X-CDS-SDK"@),
    ]
}

/// The headers of a request, given whether its address begins with the host
/// and whether it matches the sign-in routes: the three of every request,
/// and the session after them where the address is one of the host and no
/// sign-in route. Where the pattern of the routes is refused the session is
/// withheld.
pub open spec fn headers_of(session: Seq<char>, to_host: bool, signin: Option<bool>) -> Seq<
    (Seq<char>, Seq<char>),
> {
    if to_host && signin == Some(false) {
        plain_headers().push(("Authorization"@, bearer(session)))
    } else {
        plain_headers()
    }
}

/// The characters of each name and value of a list of headers.
pub open spec fn header_views(list: Seq<(String, String)>) -> Seq<(Seq<char>, Seq<char>)> {
    list.map_values(|p: (String, String)| (p.0@, p.1@))
}

fn push_header(list: &mut Vec<(String, String)>, name: &str, value: &str)
    ensures
        header_views(final(list)@) == header_views(old(list)@).push((name@, value@)),
{
    list.push((name.to_owned(), value.to_owned()));
    assert(header_views(list@) =~= header_views(old(list)@).push((name@, value@)));
}

impl Client {
    /// Whether every text is empty and certificates are checked.
    pub open spec fn is_blank(&self) -> bool {
        &&& self.name@.len() == 0
        &&& self.host@.len() == 0
        &&& self.token@.len() == 0
        &&& self.session_token@.len() == 0
        &&& self.hash@.len() == 0
        &&& !self.insecure_skip_verify_tls
    }

    /// A client of an API, with the token that opens its sessions. The
    /// certificate of a host is checked only where its address begins with
    /// `https`.
    pub fn new(host: &str, token: &str) -> (r: Client)
        ensures
            r.host@ == host@,
            r.token@ == token@,
            r.insecure_skip_verify_tls == !occurs_at(host@, "https"@, 0),
            r.name@.len() == 0,
            r.hash@.len() == 0,
            r.session_token@.len() == 0,
    {
        Client {
            name: String::new(),
            host: host.to_owned(),
            token: token.to_owned(),
            session_token: String::new(),
            hash: String::new(),
            insecure_skip_verify_tls: !starts_with(host, "https"),
        }
    }

    /// Opens a session with the token that signing in gave.
    pub fn set_session(&mut self, token: String)
        ensures
            final(self).session_token == token,
            final(self).name == old(self).name,
            final(self).host == old(self).host,
            final(self).token == old(self).token,
            final(self).hash == old(self).hash,
            final(self).insecure_skip_verify_tls == old(self).insecure_skip_verify_tls,
    {
        self.session_token = token;
    }

    /// The request for the status of the API.
    pub fn status(&self) -> (r: Request)
        ensures
            r@ == get("/mon/status"@),
    {
        Request { method: "GET".to_owned(), path: "/mon/status".to_owned() }
    }

    /// The request for the settings of the user.
    pub fn config(&self) -> (r: Request)
        ensures
            r@ == get("/config/user"@),
    {
        Request { method: "GET".to_owned(), path: "/config/user".to_owned() }
    }

    /// The request for the current user.
    pub fn me(&self) -> (r: Request)
        ensures
            r@ == get("/user/me"@),
    {
        Request { method: "GET".to_owned(), path: "/user/me".to_owned() }
    }

    /// The request for the list of projects.
    pub fn projects(&self) -> (r: Request)
        ensures
            r@ == get("/project"@),
    {
        Request { method: "GET".to_owned(), path: "/project".to_owned() }
    }

    /// The request for the applications of a project.
    pub fn applications(&self, project_key: &str) -> (r: Request)
        ensures
            r@ == get("/project/"@ + project_key@ + "/applications"@),
    {
        let mut path = "/project/".to_owned();
        path.append(project_key);
        path.append("/applications");
        Request { method: "GET".to_owned(), path }
    }

    /// The request for one application of a project.
    pub fn application(&self, project_key: &str, application_name: &str) -> (r: Request)
        ensures
            r@ == get("/project/"@ + project_key@ + "/application/"@ + application_name@),
    {
        let mut path = "/project/".to_owned();
        path.append(project_key);
        path.append("/application/");
        path.append(application_name);
        Request { method: "GET".to_owned(), path }
    }

    /// The request for the workflows of a project.
    pub fn workflows(&self, project_key: &str) -> (r: Request)
        ensures
            r@ == get("/project/"@ + project_key@ + "/workflows"@),
    {
        let mut path = "/project/".to_owned();
        path.append(project_key);
        path.append("/workflows");
        Request { method: "GET".to_owned(), path }
    }

    /// The request for one workflow of a project.
    pub fn workflow(&self, project_key: &str, workflow_name: &str) -> (r: Request)
        ensures
            r@ == get("/project/"@ + project_key@ + "/workflows/"@ + workflow_name@),
    {
        let mut path = "/project/".to_owned();
        path.append(project_key);
        path.append("/workflows/");
        path.append(workflow_name);
        Request { method: "GET".to_owned(), path }
    }

    /// The request for the length of the queue.
    pub fn queue_count(&self) -> (r: Request)
        ensures
            r@ == get("/queue/workflows/count"@),
    {
        Request { method: "GET".to_owned(), path: "/queue/workflows/count".to_owned() }
    }

    /// The request for the bookmarks of the user.
    pub fn bookmarks(&self) -> (r: Request)
        ensures
            r@ == get("/bookmarks"@),
    {
        Request { method: "GET".to_owned(), path: "/bookmarks".to_owned() }
    }

    /// The request for the last run of a workflow.
    pub fn last_run(&self, project_key: &str, workflow_name: &str) -> (r: Request)
        ensures
            r@ == get(
                "/project/"@ + project_key@ + "/workflows/"@ + workflow_name@ + "/runs/latest"@,
            ),
    {
        let mut path = "/project/".to_owned();
        path.append(project_key);
        path.append("/workflows/");
        path.append(workflow_name);
        path.append("/runs/latest");
        Request { method: "GET".to_owned(), path }
    }

    /// The request that registers a service.
    pub fn service_register(&self) -> (r: Request)
        ensures
            r@ == post("/services/register"@),
    {
        Request { method: "POST".to_owned(), path: "/services/register".to_owned() }
    }

    /// The request that signs a consumer of some type in.
    pub fn login(&self, consumer_type: &str) -> (r: Request)
        ensures
            r@ == post("/auth/consumer/"@ + consumer_type@ + "/signin"@),
    {
        let mut path = "/auth/consumer/".to_owned();
        path.append(consumer_type);
        path.append("/signin");
        Request { method: "POST".to_owned(), path }
    }

    /// The address of a path: the host, then the path.
    pub fn uri(&self, path: &str) -> (r: String)
        ensures
            r@ == self.host@ + path@,
    {
        let mut out = self.host.clone();
        out.append(path);
        out
    }

    /// Whether the session is good at an instant, given what decoding the
    /// session token gave. Without a session the answer is no, whatever was
    /// decoded. A token that does not decode is a failure.
    pub fn has_valid_token(&self, decoded: Result<AuthClaims, Error>, secs: i64, nanos: u32) -> (r:
        Result<bool, Error>)
        ensures
            self.session_token@.len() == 0 ==> r == Ok::<bool, Error>(false),
            self.session_token@.len() > 0 ==> match decoded {
                Ok(claims) => r == Ok::<bool, Error>(
                    good_at(claims.expires_at as int, secs as int, nanos as int),
                ),
                Err(e) => r == Err::<bool, Error>(e),
            },
    {
        if self.session_token.as_str().is_empty() {
            return Ok(false);
        }
        match decoded {
            Ok(claims) => Ok(claims.is_good_at(secs, nanos)),
            Err(e) => Err(e),
        }
    }

    /// Whether a session must be opened before a request to this address
    /// leaves: where the request goes out under a session, the session is
    /// not good, and there is a token to open one with.
    pub fn needs_renewal(&self, uri: &str, has_valid_token: bool) -> (r: bool)
        ensures
            r == (under_session(uri@) && !has_valid_token && self.token@.len() > 0),
    {
        goes_under_session(uri) && !has_valid_token && !self.token.as_str().is_empty()
    }

    /// Plans the exchange for a request, given whether the session is good:
    /// it goes to the host's address of the path, by the request's method,
    /// after a session is opened where one is needed.
    pub fn stream_json(&self, request: &Request, has_valid_token: bool) -> (r: Exchange)
        ensures
            r.uri@ == self.host@ + request.path@,
            r.method@ == request.method@,
            r.renew == (under_session(self.host@ + request.path@) && !has_valid_token
                && self.token@.len() > 0),
    {
        let uri = self.uri(request.path.as_str());
        let renew = self.needs_renewal(uri.as_str(), has_valid_token);
        Exchange { uri, method: request.method.clone(), renew }
    }

    /// The headers of a request to an address, given whether the address
    /// matches the sign-in routes.
    pub fn headers_for(&self, uri: &str, signin: Option<bool>) -> (r: Vec<(String, String)>)
        ensures
            header_views(r@) == headers_of(
                self.session_token@,
                occurs_at(uri@, self.host@, 0),
                signin,
            ),
    {
        let mut list: Vec<(String, String)> = Vec::new();
        assert(header_views(list@) =~= Seq::empty());
        push_header(&mut list, "Content-Type", "application/json");
        push_header(&mut list, "User-Agent", "CDS/sdk");
        push_header(&mut list, "X-Requested-With", "X-CDS-SDK");
        assert(header_views(list@) =~= plain_headers());
        let to_host = starts_with(uri, self.host.as_str());
        match signin {
            Some(false) => {
                if to_host {
                    let mut value = "Bearer ".to_owned();
                    value.append(self.session_token.as_str());
                    push_header(&mut list, "Authorization", value.as_str());
                }
            },
            _ => {},
        }
        list
    }

    /// The headers of a request to an address: the three of every request,
    /// and the session where the address begins with the host and is no
    /// sign-in route.
    pub fn headers(&self, uri: &str) -> (r: Vec<(String, String)>)
        ensures
            header_views(r@) == headers_of(
                self.session_token@,
                occurs_at(uri@, self.host@, 0),
                pattern_match(SIGNIN_ROUTES@, uri@),
            ),
    {
        self.headers_for(uri, search(SIGNIN_ROUTES, uri))
    }
}

} // verus!
