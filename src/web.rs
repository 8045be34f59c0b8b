//! Web requests: a builder that shapes an HTTP request into an execution context.

use vstd::prelude::*;

use crate::context::ExecutionContext;
use crate::paths::{file_name, parent_dir, parse_uri, path_file_name, path_parent, uri_path, uri_query};
use crate::server_vars::{
    ascii_only, ascii_upper, header_var_name, pairs_view, web_default_entries, unix_now, uppercase, upper_text, ServerVars,
    VarView,
};
use crate::text::{
    ascii_fold, concat, decimal, owned, push_char, push_text, same_text,
    same_text_ignoring_ascii_case,
};

verus! {

/// Why a web request could not be built.
#[derive(Debug, Clone)]
pub enum WebRequestError {
    MissingMethod,
    InvalidMethod(String),
    ScriptNotFound(String),
}

impl WebRequestError {
    /// A sentence for people.
    pub fn to_string(&self) -> (r: String)
        ensures
            match self {
                WebRequestError::MissingMethod => r@ == "HTTP method not specified"@,
                WebRequestError::InvalidMethod(m) => r@ == "Invalid HTTP method: "@ + m@,
                WebRequestError::ScriptNotFound(p) => r@ == "Script not found: "@ + p@,
            },
    {
        match self {
            WebRequestError::MissingMethod => owned("HTTP method not specified"),
            WebRequestError::InvalidMethod(m) => concat("Invalid HTTP method: ", m.as_str()),
            WebRequestError::ScriptNotFound(p) => concat("Script not found: ", p.as_str()),
        }
    }
}

/// The HTTP methods a web request can carry.
#[derive(Debug, Clone, Copy, PartialEq, Eq, Structural)]
pub enum Method {
    Get,
    Post,
    Put,
    Delete,
    Patch,
    Head,
    Options,
}

pub open spec fn method_name(m: Method) -> Seq<char> {
    match m {
        Method::Get => "GET"@,
        Method::Post => "POST"@,
        Method::Put => "PUT"@,
        Method::Delete => "DELETE"@,
        Method::Patch => "PATCH"@,
        Method::Head => "HEAD"@,
        Method::Options => "OPTIONS"@,
    }
}

impl Method {
    pub fn as_str(&self) -> (r: &'static str)
        ensures
            r@ == method_name(*self),
    {
        match self {
            Method::Get => "GET",
            Method::Post => "POST",
            Method::Put => "PUT",
            Method::Delete => "DELETE",
            Method::Patch => "PATCH",
            Method::Head => "HEAD",
            Method::Options => "OPTIONS",
        }
    }

    /// The method named `value`, in any case.
    pub fn from_name(value: &str) -> (r: Result<Method, String>)
        ensures
            match r {
                Ok(m) => method_name(m) == upper_text(value@),
                Err(msg) => msg@ == "Invalid HTTP method: "@ + value@ && forall|m: Method|
                    method_name(m) != upper_text(value@),
            },
            forall|m: Method|
                ascii_only(value@) && #[trigger] method_name(m) == ascii_upper(value@) ==> r == Ok::<
                    Method,
                    String,
                >(m),
    {
        proof {
            lemma_method_names_differ();
            assert(method_name(Method::Get) == "GET"@);
            assert(method_name(Method::Post) == "POST"@);
            assert(method_name(Method::Put) == "PUT"@);
            assert(method_name(Method::Delete) == "DELETE"@);
            assert(method_name(Method::Patch) == "PATCH"@);
            assert(method_name(Method::Head) == "HEAD"@);
            assert(method_name(Method::Options) == "OPTIONS"@);
        }
        let u = uppercase(value);
        let s = u.as_str();
        if same_text(s, "GET") {
            Ok(Method::Get)
        } else if same_text(s, "POST") {
            Ok(Method::Post)
        } else if same_text(s, "PUT") {
            Ok(Method::Put)
        } else if same_text(s, "DELETE") {
            Ok(Method::Delete)
        } else if same_text(s, "PATCH") {
            Ok(Method::Patch)
        } else if same_text(s, "HEAD") {
            Ok(Method::Head)
        } else if same_text(s, "OPTIONS") {
            Ok(Method::Options)
        } else {
            assert forall|m: Method| method_name(m) != upper_text(value@) by {
                match m {
                    Method::Get => {},
                    Method::Post => {},
                    Method::Put => {},
                    Method::Delete => {},
                    Method::Patch => {},
                    Method::Head => {},
                    Method::Options => {},
                }
            }
            Err(concat("Invalid HTTP method: ", value))
        }
    }
}

proof fn lemma_method_names_differ()
    ensures
        forall|a: Method, b: Method| #[trigger] method_name(a) == #[trigger] method_name(b) ==> a == b,
{
    reveal_strlit("GET");
    reveal_strlit("POST");
    reveal_strlit("PUT");
    reveal_strlit("DELETE");
    reveal_strlit("PATCH");
    reveal_strlit("HEAD");
    reveal_strlit("OPTIONS");
    assert forall|a: Method, b: Method| #[trigger] method_name(a) == #[trigger] method_name(b) implies a == b by {
        let x = method_name(a);
        let y = method_name(b);
        if a != b {
            assert(x.len() != y.len() || x[0] != y[0] || x[1] != y[1]);
        }
    }
}

/// `key=value`.
pub open spec fn pair_text(p: VarView) -> Seq<char> {
    p.0 + seq!['='] + p.1
}

/// The cookies as one `Cookie` header line: `a=1; b=2`.
pub open spec fn cookie_line(cs: Seq<VarView>) -> Seq<char>
    decreases cs.len(),
{
    if cs.len() == 0 {
        Seq::empty()
    } else if cs.len() == 1 {
        pair_text(cs[0])
    } else {
        cookie_line(cs.drop_last()) + seq![';', ' '] + pair_text(cs.last())
    }
}

/// Whether a header of that name, ignoring ASCII case, is among `hs`.
pub open spec fn has_header(hs: Seq<VarView>, name: Seq<char>) -> bool {
    exists|j: int| 0 <= j < hs.len() && ascii_fold(#[trigger] hs[j].0) == ascii_fold(name)
}

/// Each request header as a meta-variable.
pub open spec fn header_entries(hs: Seq<VarView>) -> Seq<VarView> {
    hs.map_values(|h: VarView| (header_var_name(h.0), h.1))
}

/// A builder for a web request.
#[derive(Debug, Clone)]
pub struct WebRequest {
    pub https: bool,
    pub body: Vec<u8>,
    pub server_port: u16,
    pub remote_port: u16,
    pub uri: Option<String>,
    pub remote_addr: String,
    pub server_addr: String,
    pub method: Option<Method>,
    pub server_name: String,
    pub server_protocol: String,
    pub path_info: Option<String>,
    pub headers: Vec<(String, String)>,
    pub cookies: Vec<(String, String)>,
    pub document_root: Option<String>,
    pub env_vars: Vec<(String, String)>,
    pub ini_overrides: Vec<(String, String)>,
}

/// The request URI: the one set, or `/` and the script's file name.
pub open spec fn uri_of(req: WebRequest, filename: Seq<char>) -> Seq<char> {
    match req.uri {
        Some(u) => u@,
        None => seq!['/'] + file_name(filename),
    }
}

/// The document root: the one set, or the script's directory.
pub open spec fn root_of(req: WebRequest, filename: Seq<char>) -> Seq<char> {
    match req.document_root {
        Some(d) => d@,
        None => parent_dir(filename),
    }
}

pub open spec fn query_or_empty(uri: Seq<char>) -> Seq<char> {
    match uri_query(uri) {
        Some(q) => q,
        None => Seq::empty(),
    }
}

pub open spec fn https_entries(on: bool) -> Seq<VarView> {
    if on {
        seq![("HTTPS"@, "on"@), ("REQUEST_SCHEME"@, "https"@)]
    } else {
        seq![("REQUEST_SCHEME"@, "http"@)]
    }
}

pub open spec fn path_info_entries(info: Option<String>, root: Seq<char>) -> Seq<VarView> {
    match info {
        Some(i) => seq![("PATH_INFO"@, i@), ("PATH_TRANSLATED"@, root + i@)],
        None => Seq::empty(),
    }
}

pub open spec fn cookie_entries(cs: Seq<VarView>) -> Seq<VarView> {
    if cs.len() > 0 {
        seq![("HTTP_COOKIE"@, cookie_line(cs))]
    } else {
        Seq::empty()
    }
}

/// The content type and length that a body brings where no header gave them.
pub open spec fn body_entries(hs: Seq<VarView>, body_len: nat) -> Seq<VarView> {
    let ct: Seq<VarView> = if !has_header(hs, "Content-Type"@) && body_len > 0 {
        seq![("CONTENT_TYPE"@, "application/octet-stream"@)]
    } else {
        Seq::empty()
    };
    let cl: Seq<VarView> = if !has_header(hs, "Content-Length"@) && body_len > 0 {
        seq![("CONTENT_LENGTH"@, decimal(body_len))]
    } else {
        Seq::empty()
    };
    ct + cl
}

/// The meta-variables of a web request for the script at `filename`, with
/// the request time `secs`.`micros`.
pub open spec fn web_entries(req: WebRequest, filename: Seq<char>, secs: nat, micros: nat) -> Seq<
    VarView,
> {
    web_default_entries(secs, micros) + request_entries(req, filename)
}

/// The meta-variables of a web request that follow the defaults.
pub open spec fn request_entries(req: WebRequest, filename: Seq<char>) -> Seq<VarView> {
    let hs = pairs_view(req.headers@);
    fixed_entries(req, filename) + https_entries(req.https) + path_info_entries(
        req.path_info,
        root_of(req, filename),
    ) + cookie_entries(pairs_view(req.cookies@)) + header_entries(hs) + body_entries(
        hs,
        req.body@.len(),
    )
}

/// The meta-variables that every web request has.
pub open spec fn fixed_entries(req: WebRequest, filename: Seq<char>) -> Seq<VarView> {
    let uri = uri_of(req, filename);
    let path = uri_path(uri);
    seq![
        ("REQUEST_METHOD"@, method_name(req.method->0)),
        ("REQUEST_URI"@, uri),
        ("QUERY_STRING"@, query_or_empty(uri)),
        ("SCRIPT_FILENAME"@, filename),
        ("SCRIPT_NAME"@, path),
        ("PHP_SELF"@, path),
        ("DOCUMENT_ROOT"@, root_of(req, filename)),
        ("SERVER_NAME"@, req.server_name@),
        ("SERVER_PORT"@, decimal(req.server_port as nat)),
        ("SERVER_ADDR"@, req.server_addr@),
        ("REMOTE_ADDR"@, req.remote_addr@),
        ("REMOTE_PORT"@, decimal(req.remote_port as nat)),
        ("SERVER_PROTOCOL"@, req.server_protocol@),
    ]
}

impl Default for WebRequest {
    fn default() -> (r: Self)
        ensures
            r.method is None,
            r.uri is None,
            r.server_name@ == "localhost"@,
            r.server_port == 80,
            r.server_protocol@ == "HTTP/1.1"@,
            r.remote_addr@ == "127.0.0.1"@,
            r.remote_port == 0,
            r.server_addr@ == "127.0.0.1"@,
            !r.https,
            r.headers@.len() == 0,
            r.cookies@.len() == 0,
            r.body@.len() == 0,
            r.document_root is None,
            r.path_info is None,
            r.env_vars@.len() == 0,
            r.ini_overrides@.len() == 0,
    {
        WebRequest {
            uri: None,
            method: None,
            server_name: owned("localhost"),
            server_port: 80,
            server_protocol: owned("HTTP/1.1"),
            remote_addr: owned("127.0.0.1"),
            remote_port: 0,
            server_addr: owned("127.0.0.1"),
            https: false,
            headers: Vec::new(),
            cookies: Vec::new(),
            body: Vec::new(),
            document_root: None,
            path_info: None,
            env_vars: Vec::new(),
            ini_overrides: Vec::new(),
        }
    }
}

impl WebRequest {
    /// A request with `method` and the defaults otherwise.
    pub fn new(method: Method) -> (r: Self)
        ensures
            r.method == Some(method),
            r.uri is None,
            r.server_name@ == "localhost"@,
            r.server_port == 80,
            r.server_protocol@ == "HTTP/1.1"@,
            r.remote_addr@ == "127.0.0.1"@,
            r.remote_port == 0,
            r.server_addr@ == "127.0.0.1"@,
            !r.https,
            r.headers@.len() == 0,
            r.cookies@.len() == 0,
            r.body@.len() == 0,
            r.document_root is None,
            r.path_info is None,
            r.env_vars@.len() == 0,
            r.ini_overrides@.len() == 0,
    {
        let mut r = WebRequest::default();
        r.method = Some(method);
        r
    }

    pub fn get() -> (r: Self)
        ensures
            r.method == Some(Method::Get),
            r.uri is None,
            r.headers@.len() == 0,
            r.cookies@.len() == 0,
            r.body@.len() == 0,
    {
        Self::new(Method::Get)
    }

    pub fn post() -> (r: Self)
        ensures
            r.method == Some(Method::Post),
            r.uri is None,
            r.headers@.len() == 0,
            r.cookies@.len() == 0,
            r.body@.len() == 0,
    {
        Self::new(Method::Post)
    }

    pub fn put() -> (r: Self)
        ensures
            r.method == Some(Method::Put),
            r.uri is None,
            r.headers@.len() == 0,
            r.cookies@.len() == 0,
            r.body@.len() == 0,
    {
        Self::new(Method::Put)
    }

    pub fn delete() -> (r: Self)
        ensures
            r.method == Some(Method::Delete),
            r.uri is None,
            r.headers@.len() == 0,
            r.cookies@.len() == 0,
            r.body@.len() == 0,
    {
        Self::new(Method::Delete)
    }

    pub fn patch() -> (r: Self)
        ensures
            r.method == Some(Method::Patch),
            r.uri is None,
            r.headers@.len() == 0,
            r.cookies@.len() == 0,
            r.body@.len() == 0,
    {
        Self::new(Method::Patch)
    }

    pub fn head() -> (r: Self)
        ensures
            r.method == Some(Method::Head),
            r.uri is None,
            r.headers@.len() == 0,
            r.cookies@.len() == 0,
            r.body@.len() == 0,
    {
        Self::new(Method::Head)
    }

    pub fn options() -> (r: Self)
        ensures
            r.method == Some(Method::Options),
            r.uri is None,
            r.headers@.len() == 0,
            r.cookies@.len() == 0,
            r.body@.len() == 0,
    {
        Self::new(Method::Options)
    }

    pub fn with_uri(self, uri: &str) -> (r: Self)
        ensures
            r.uri matches Some(x) && x@ == uri@,
            r == (WebRequest { uri: r.uri, ..self }),
    {
        let mut r = self;
        r.uri = Some(owned(uri));
        r
    }

    pub fn with_document_root(self, path: &str) -> (r: Self)
        ensures
            r.document_root matches Some(x) && x@ == path@,
            r == (WebRequest { document_root: r.document_root, ..self }),
    {
        let mut r = self;
        r.document_root = Some(owned(path));
        r
    }

    pub fn with_path_info(self, path: &str) -> (r: Self)
        ensures
            r.path_info matches Some(x) && x@ == path@,
            r == (WebRequest { path_info: r.path_info, ..self }),
    {
        let mut r = self;
        r.path_info = Some(owned(path));
        r
    }

    pub fn with_server_name(self, name: &str) -> (r: Self)
        ensures
            r.server_name@ == name@,
            r == (WebRequest { server_name: r.server_name, ..self }),
    {
        let mut r = self;
        r.server_name = owned(name);
        r
    }

    pub fn with_server_protocol(self, proto: &str) -> (r: Self)
        ensures
            r.server_protocol@ == proto@,
            r == (WebRequest { server_protocol: r.server_protocol, ..self }),
    {
        let mut r = self;
        r.server_protocol = owned(proto);
        r
    }

    pub fn with_remote_addr(self, addr: &str) -> (r: Self)
        ensures
            r.remote_addr@ == addr@,
            r == (WebRequest { remote_addr: r.remote_addr, ..self }),
    {
        let mut r = self;
        r.remote_addr = owned(addr);
        r
    }

    pub fn with_server_addr(self, addr: &str) -> (r: Self)
        ensures
            r.server_addr@ == addr@,
            r == (WebRequest { server_addr: r.server_addr, ..self }),
    {
        let mut r = self;
        r.server_addr = owned(addr);
        r
    }

    pub fn with_server_port(self, port: u16) -> (r: Self)
        ensures
            r == (WebRequest { server_port: port, ..self }),
    {
        let mut r = self;
        r.server_port = port;
        r
    }

    pub fn with_remote_port(self, port: u16) -> (r: Self)
        ensures
            r == (WebRequest { remote_port: port, ..self }),
    {
        let mut r = self;
        r.remote_port = port;
        r
    }

    pub fn with_https(self, enabled: bool) -> (r: Self)
        ensures
            r == (WebRequest { https: enabled, ..self }),
    {
        let mut r = self;
        r.https = enabled;
        r
    }

    pub fn with_body(self, bytes: Vec<u8>) -> (r: Self)
        ensures
            r == (WebRequest { body: bytes, ..self }),
    {
        let mut r = self;
        r.body = bytes;
        r
    }

    pub fn with_header(self, name: &str, value: &str) -> (r: Self)
        ensures
            pairs_view(r.headers@) == pairs_view(self.headers@).push((name@, value@)),
            r == (WebRequest { headers: r.headers, ..self }),
    {
        let mut r = self;
        r.headers = pushed(r.headers, name, value);
        r
    }

    pub fn with_headers(self, pairs: Vec<(String, String)>) -> (r: Self)
        ensures
            r.headers@ == self.headers@ + pairs@,
            r == (WebRequest { headers: r.headers, ..self }),
    {
        let mut r = self;
        r.headers = appended(r.headers, pairs);
        r
    }

    pub fn with_cookie(self, name: &str, value: &str) -> (r: Self)
        ensures
            pairs_view(r.cookies@) == pairs_view(self.cookies@).push((name@, value@)),
            r == (WebRequest { cookies: r.cookies, ..self }),
    {
        let mut r = self;
        r.cookies = pushed(r.cookies, name, value);
        r
    }

    pub fn with_cookies(self, pairs: Vec<(String, String)>) -> (r: Self)
        ensures
            r.cookies@ == self.cookies@ + pairs@,
            r == (WebRequest { cookies: r.cookies, ..self }),
    {
        let mut r = self;
        r.cookies = appended(r.cookies, pairs);
        r
    }

    pub fn with_env(self, key: &str, value: &str) -> (r: Self)
        ensures
            pairs_view(r.env_vars@) == pairs_view(self.env_vars@).push((key@, value@)),
            r == (WebRequest { env_vars: r.env_vars, ..self }),
    {
        let mut r = self;
        r.env_vars = pushed(r.env_vars, key, value);
        r
    }

    pub fn with_envs(self, pairs: Vec<(String, String)>) -> (r: Self)
        ensures
            r.env_vars@ == self.env_vars@ + pairs@,
            r == (WebRequest { env_vars: r.env_vars, ..self }),
    {
        let mut r = self;
        r.env_vars = appended(r.env_vars, pairs);
        r
    }

    pub fn with_ini(self, key: &str, value: &str) -> (r: Self)
        ensures
            pairs_view(r.ini_overrides@) == pairs_view(self.ini_overrides@).push((key@, value@)),
            r == (WebRequest { ini_overrides: r.ini_overrides, ..self }),
    {
        let mut r = self;
        r.ini_overrides = pushed(r.ini_overrides, key, value);
        r
    }

    pub fn with_ini_overrides(self, pairs: Vec<(String, String)>) -> (r: Self)
        ensures
            r.ini_overrides@ == self.ini_overrides@ + pairs@,
            r == (WebRequest { ini_overrides: r.ini_overrides, ..self }),
    {
        let mut r = self;
        r.ini_overrides = appended(r.ini_overrides, pairs);
        r
    }

    /// Adds a `Content-Type` header.
    pub fn with_content_type(self, ct: &str) -> (r: Self)
        ensures
            pairs_view(r.headers@) == pairs_view(self.headers@).push(("Content-Type"@, ct@)),
            r == (WebRequest { headers: r.headers, ..self }),
    {
        self.with_header("Content-Type", ct)
    }

    /// Adds a raw `Cookie` header.
    pub fn with_raw_cookie_header(self, cookie_string: &str) -> (r: Self)
        ensures
            pairs_view(r.headers@) == pairs_view(self.headers@).push(("Cookie"@, cookie_string@)),
            r == (WebRequest { headers: r.headers, ..self }),
    {
        self.with_header("Cookie", cookie_string)
    }

    /// Builds the execution context for the script at `script_path`.
    /// `resolved` is the script's canonical path where the script exists,
    /// `None` where it does not; `secs`.`micros` is the request time.
    pub fn build_at(self, script_path: &str, resolved: Option<String>, secs: u64, micros: u32) -> (r:
        Result<ExecutionContext, WebRequestError>)
        requires
            micros < 1_000_000,
        ensures
            self.method is None ==> r matches Err(WebRequestError::MissingMethod),
            self.method is Some && resolved is None ==> (r matches Err(
                WebRequestError::ScriptNotFound(p),
            ) && p@ == script_path@),
            self.method is Some && resolved is Some ==> (r matches Ok(ctx) && ctx.wf()
                && ctx.script_path@ == script_path@ && ctx.server_vars.entries() == web_entries(
                self,
                resolved->0@,
                secs as nat,
                micros as nat,
            ) && ctx.input == self.body && ctx.env_vars == self.env_vars && ctx.ini_overrides
                == self.ini_overrides && !ctx.log_to_stderr),
    {
        let method = match self.method {
            Some(m) => m,
            None => {
                return Err(WebRequestError::MissingMethod);
            },
        };
        let filename = match resolved {
            Some(f) => f,
            None => {
                return Err(WebRequestError::ScriptNotFound(owned(script_path)));
            },
        };
        let vars = request_vars(&self, method, filename.as_str(), ServerVars::web_defaults_at(secs, micros));
        Ok(
            ExecutionContext {
                script_path: owned(script_path),
                server_vars: vars,
                input: self.body,
                env_vars: self.env_vars,
                ini_overrides: self.ini_overrides,
                log_to_stderr: false,
            },
        )
    }

    /// Builds the execution context with the request time read from the clock.
    pub fn build(self, script_path: &str, resolved: Option<String>) -> (r: Result<
        ExecutionContext,
        WebRequestError,
    >)
        ensures
            self.method is None ==> r matches Err(WebRequestError::MissingMethod),
            self.method is Some && resolved is None ==> (r matches Err(
                WebRequestError::ScriptNotFound(p),
            ) && p@ == script_path@),
            self.method is Some && resolved is Some ==> (r matches Ok(ctx) && ctx.wf()
                && ctx.script_path@ == script_path@ && (exists|secs: nat, micros: nat|
                ctx.server_vars.entries() == web_entries(self, resolved->0@, secs, micros))
                && ctx.input == self.body && ctx.env_vars == self.env_vars && ctx.ini_overrides
                == self.ini_overrides && !ctx.log_to_stderr),
    {
        let (secs, micros) = unix_now();
        self.build_at(script_path, resolved, secs, micros)
    }
}

/// Appends the request's own meta-variables to the defaults in `vars`.
#[verifier::rlimit(50)]
fn request_vars(req: &WebRequest, method: Method, filename: &str, vars: ServerVars) -> (r: ServerVars)
    requires
        vars.wf(),
        req.method == Some(method),
    ensures
        r.wf(),
        r.entries() == vars.entries() + request_entries(*req, filename@),
{
    let ghost start = vars.entries();
    let (vars, root) = fixed_vars(req, method, filename, vars);
    let ghost after_fixed = vars.entries();
    let mut vars = vars;
    vars.https(req.https);
    assert(vars.entries() =~= after_fixed + https_entries(req.https));
    let ghost after_https = vars.entries();
    match &req.path_info {
        Some(info) => {
            vars.path_info(info.as_str(), root.as_str());
        },
        None => {},
    }
    assert(vars.entries() =~= after_https + path_info_entries(req.path_info, root@));
    let ghost after_info = vars.entries();
    if req.cookies.len() > 0 {
        let line = cookie_text(&req.cookies);
        vars.cookies(line.as_str());
    }
    assert(vars.entries() =~= after_info + cookie_entries(pairs_view(req.cookies@)));
    let ghost after_cookies = vars.entries();
    let vars = header_vars(req, vars);
    assert(vars.entries() =~= start + request_entries(*req, filename@));
    vars
}

/// Appends the meta-variables that every web request has; also gives the
/// document root.
fn fixed_vars(req: &WebRequest, method: Method, filename: &str, vars: ServerVars) -> (r: (
    ServerVars,
    String,
))
    requires
        vars.wf(),
        req.method == Some(method),
    ensures
        r.0.wf(),
        r.0.entries() == vars.entries() + fixed_entries(*req, filename@),
        r.1@ == root_of(*req, filename@),
{
    let ghost start = vars.entries();
    let mut vars = vars;
    let uri = match &req.uri {
        Some(u) => u.clone(),
        None => concat("/", path_file_name(filename).as_str()),
    };
    let root = match &req.document_root {
        Some(d) => d.clone(),
        None => path_parent(filename),
    };
    proof {
        reveal_strlit("/");
        assert("/"@ =~= seq!['/']);
    }
    assert(uri@ == uri_of(*req, filename@));
    let (path, query) = parse_uri(uri.as_str());
    let query_text = match query {
        Some(q) => q,
        None => String::new(),
    };
    vars.request_method(method.as_str());
    vars.request_uri(uri.as_str());
    vars.query_string(query_text.as_str());
    vars.script_filename(filename);
    vars.script_name(path.as_str());
    vars.document_root(root.as_str());
    vars.server_name(req.server_name.as_str());
    vars.server_port(req.server_port);
    vars.server_addr(req.server_addr.as_str());
    vars.remote_addr(req.remote_addr.as_str());
    vars.remote_port(req.remote_port);
    vars.server_protocol(req.server_protocol.as_str());
    assert(vars.entries() =~= start + fixed_entries(*req, filename@));
    (vars, root)
}

/// Appends each request header, then the content type and length that the
/// body brings where no header gave them.
fn header_vars(req: &WebRequest, vars: ServerVars) -> (r: ServerVars)
    requires
        vars.wf(),
    ensures
        r.wf(),
        r.entries() == vars.entries() + header_entries(pairs_view(req.headers@)) + body_entries(
            pairs_view(req.headers@),
            req.body@.len(),
        ),
{
    let ghost after_cookies = vars.entries();
    let mut vars = vars;
    let ghost hs = pairs_view(req.headers@);
    let mut has_ct = false;
    let mut has_cl = false;
    let mut i: usize = 0;
    proof {
        lemma_content_names_differ();
    }
    while i < req.headers.len()
        invariant
            vars.wf(),
            i <= req.headers@.len(),
            hs == pairs_view(req.headers@),
            ascii_fold("Content-Type"@) != ascii_fold("Content-Length"@),
            vars.entries() == after_cookies + header_entries(hs.subrange(0, i as int)),
            has_ct == has_header(hs.subrange(0, i as int), "Content-Type"@),
            has_cl == has_header(hs.subrange(0, i as int), "Content-Length"@),
        decreases req.headers@.len() - i,
    {
        let h = &req.headers[i];
        let ghost prev = hs.subrange(0, i as int);
        let ghost next = hs.subrange(0, i + 1);
        assert(next =~= prev.push(hs[i as int]));
        if same_text_ignoring_ascii_case(h.0.as_str(), "Content-Type") {
            has_ct = true;
        } else if same_text_ignoring_ascii_case(h.0.as_str(), "Content-Length") {
            has_cl = true;
        }
        proof {
            lemma_has_header_push(prev, hs[i as int], "Content-Type"@);
            lemma_has_header_push(prev, hs[i as int], "Content-Length"@);
        }
        vars.http_header(h.0.as_str(), h.1.as_str());
        i = i + 1;
        assert(header_entries(next) =~= header_entries(prev).push(
            (header_var_name(hs[i - 1].0), hs[i - 1].1),
        ));
    }
    assert(hs.subrange(0, i as int) =~= hs);
    let ghost after_headers = vars.entries();
    if !has_ct && req.body.len() > 0 {
        vars.content_type("application/octet-stream");
    }
    if !has_cl && req.body.len() > 0 {
        vars.content_length(req.body.len());
    }
    assert(vars.entries() =~= after_headers + body_entries(hs, req.body@.len()));
    vars
}

proof fn lemma_content_names_differ()
    ensures
        ascii_fold("Content-Type"@) != ascii_fold("Content-Length"@),
{
    reveal_strlit("Content-Type");
    reveal_strlit("Content-Length");
    assert(ascii_fold("Content-Type"@).len() == 12);
    assert(ascii_fold("Content-Length"@).len() == 14);
}

proof fn lemma_has_header_push(hs: Seq<VarView>, h: VarView, name: Seq<char>)
    ensures
        has_header(hs.push(h), name) == (has_header(hs, name) || ascii_fold(h.0) == ascii_fold(
            name,
        )),
{
    let t = hs.push(h);
    if has_header(hs, name) {
        let j = choose|j: int| 0 <= j < hs.len() && ascii_fold(#[trigger] hs[j].0) == ascii_fold(name);
        assert(t[j] == hs[j]);
    }
    if ascii_fold(h.0) == ascii_fold(name) {
        assert(t[hs.len() as int] == h);
    }
    if has_header(t, name) {
        let j = choose|j: int| 0 <= j < t.len() && ascii_fold(#[trigger] t[j].0) == ascii_fold(name);
        if j < hs.len() {
            assert(hs[j] == t[j]);
        }
    }
}

/// The cookies joined into one header line.
fn cookie_text(cs: &Vec<(String, String)>) -> (r: String)
    ensures
        r@ == cookie_line(pairs_view(cs@)),
{
    let ghost pv = pairs_view(cs@);
    let mut r = String::new();
    let mut i: usize = 0;
    while i < cs.len()
        invariant
            i <= cs@.len(),
            pv == pairs_view(cs@),
            r@ == cookie_line(pv.subrange(0, i as int)),
        decreases cs@.len() - i,
    {
        let c = &cs[i];
        let ghost next = pv.subrange(0, i + 1);
        assert(next.drop_last() =~= pv.subrange(0, i as int));
        if i > 0 {
            push_char(&mut r, ';');
            push_char(&mut r, ' ');
        }
        push_text(&mut r, c.0.as_str());
        push_char(&mut r, '=');
        push_text(&mut r, c.1.as_str());
        i = i + 1;
        if i == 1 {
            assert(r@ =~= pair_text(next[0]));
        } else {
            assert(r@ =~= cookie_line(next.drop_last()) + seq![';', ' '] + pair_text(next.last()));
        }
    }
    assert(pv.subrange(0, i as int) =~= pv);
    r
}

/// A pair of owned strings.
fn pair(k: &str, v: &str) -> (r: (String, String))
    ensures
        r.0@ == k@,
        r.1@ == v@,
{
    (owned(k), owned(v))
}

/// `v` with one more pair at the end.
fn pushed(v: Vec<(String, String)>, k: &str, val: &str) -> (r: Vec<(String, String)>)
    ensures
        pairs_view(r@) == pairs_view(v@).push((k@, val@)),
{
    let mut v = v;
    let ghost before = v@;
    v.push(pair(k, val));
    assert(pairs_view(v@) =~= pairs_view(before).push((k@, val@)));
    v
}

/// `v` followed by `more`.
fn appended(v: Vec<(String, String)>, more: Vec<(String, String)>) -> (r: Vec<(String, String)>)
    ensures
        r@ == v@ + more@,
{
    let mut v = v;
    let mut more = more;
    v.append(&mut more);
    v
}

} // verus!
