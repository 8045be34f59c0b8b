//! The meta-variables of one request, in the CGI/1.1 convention.

use vstd::prelude::*;

use crate::text::{concat, decimal, owned, push_char, push_text, same_text, u64_text};

verus! {

/// One meta-variable as text: name and value.
pub type VarView = (Seq<char>, Seq<char>);

/// The value of the last entry named `key`, if any.
pub open spec fn last_value(es: Seq<VarView>, key: Seq<char>) -> Option<Seq<char>>
    decreases es.len(),
{
    if es.len() == 0 {
        None
    } else if es.last().0 == key {
        Some(es.last().1)
    } else {
        last_value(es.drop_last(), key)
    }
}

/// The text of an optional owned string.
pub open spec fn opt_text(o: Option<String>) -> Option<Seq<char>> {
    match o {
        Some(s) => Some(s@),
        None => None,
    }
}

/// The text of an optional string slice.
pub open spec fn opt_str(o: Option<&str>) -> Option<Seq<char>> {
    match o {
        Some(s) => Some(s@),
        None => None,
    }
}

/// The text of a list of owned pairs.
pub open spec fn pairs_view(v: Seq<(String, String)>) -> Seq<VarView> {
    v.map_values(|p: (String, String)| (p.0@, p.1@))
}

/// What `str::to_uppercase` makes of a text: the Unicode uppercase mapping.
pub uninterp spec fn upper_text(s: Seq<char>) -> Seq<char>;

/// ASCII text: every character below 128.
pub open spec fn ascii_only(s: Seq<char>) -> bool {
    forall|i: int| 0 <= i < s.len() ==> (s[i] as u32) < 128
}

/// ASCII uppercase of one character: `a`..`z` map to `A`..`Z`.
pub open spec fn ascii_upper_char(c: char) -> char {
    if 'a' <= c && c <= 'z' {
        ((c as u32) - 32) as char
    } else {
        c
    }
}

pub open spec fn ascii_upper(s: Seq<char>) -> Seq<char> {
    Seq::new(s.len(), |i: int| ascii_upper_char(s[i]))
}

/// Relies on `str::to_uppercase`: the result depends on the characters
/// alone, and ASCII text maps to its ASCII uppercase.
#[verifier::external_body]
pub(crate) fn uppercase(s: &str) -> (r: String)
    ensures
        r@ == upper_text(s@),
        ascii_only(s@) ==> r@ == ascii_upper(s@),
{
    s.to_uppercase()
}

/// Relies on `SystemTime::now`: seconds and microseconds since the Unix epoch,
/// zero where the clock stands before it.
#[verifier::external_body]
pub(crate) fn unix_now() -> (r: (u64, u32))
    ensures
        r.1 < 1_000_000,
{
    let d = std::time::SystemTime::now().duration_since(std::time::UNIX_EPOCH).unwrap_or_default();
    (d.as_secs(), d.subsec_micros())
}

/// Each `-` replaced by `_`.
pub open spec fn dashes_to_underscores(s: Seq<char>) -> Seq<char> {
    Seq::new(s.len(), |i: int| if s[i] == '-' { '_' } else { s[i] })
}

/// The meta-variable name under which a request header is passed: uppercase,
/// `-` as `_`, and `HTTP_` in front but for the content type and length.
pub open spec fn header_var_name(name: Seq<char>) -> Seq<char> {
    let u = dashes_to_underscores(upper_text(name));
    if u == "CONTENT_TYPE"@ || u == "CONTENT_LENGTH"@ {
        u
    } else {
        "HTTP_"@ + u
    }
}

/// Six decimal digits of `n`, zeros in front.
pub open spec fn six_digits(n: nat) -> Seq<char> {
    Seq::new(6, |i: int| crate::text::digit_char((n / pow10((5 - i) as nat)) % 10))
}

pub open spec fn pow10(k: nat) -> nat
    decreases k,
{
    if k == 0 {
        1
    } else {
        10 * pow10((k - 1) as nat)
    }
}

/// A time as seconds and a six-digit fraction.
pub open spec fn time_text(secs: nat, micros: nat) -> Seq<char> {
    decimal(secs) + seq!['.'] + six_digits(micros)
}

proof fn lemma_kept_names_differ()
    ensures
        "HTTP_COOKIE"@ != "CONTENT_TYPE"@,
        "HTTP_COOKIE"@ != "QUERY_STRING"@,
        "HTTP_COOKIE"@ != "REQUEST_METHOD"@,
        "CONTENT_TYPE"@ != "QUERY_STRING"@,
        "CONTENT_TYPE"@ != "REQUEST_METHOD"@,
        "QUERY_STRING"@ != "REQUEST_METHOD"@,
{
    reveal_strlit("HTTP_COOKIE");
    reveal_strlit("CONTENT_TYPE");
    reveal_strlit("QUERY_STRING");
    reveal_strlit("REQUEST_METHOD");
    assert("HTTP_COOKIE"@.len() == 11);
    assert("CONTENT_TYPE"@.len() == 12);
    assert("QUERY_STRING"@.len() == 12);
    assert("REQUEST_METHOD"@.len() == 14);
    assert("CONTENT_TYPE"@[0] != "QUERY_STRING"@[0]);
}

/// `-` as `_`, character by character.
pub fn underscored(s: &str) -> (r: String)
    ensures
        r@ == dashes_to_underscores(s@),
{
    let n = s.unicode_len();
    let mut r = String::new();
    let mut i: usize = 0;
    while i < n
        invariant
            n == s@.len(),
            i <= n,
            r@ == dashes_to_underscores(s@).subrange(0, i as int),
        decreases n - i,
    {
        let c = s.get_char(i);
        if c == '-' {
            push_char(&mut r, '_');
        } else {
            push_char(&mut r, c);
        }
        i = i + 1;
        assert(r@ =~= dashes_to_underscores(s@).subrange(0, i as int));
    }
    assert(dashes_to_underscores(s@).subrange(0, n as int) =~= dashes_to_underscores(s@));
    r
}

proof fn lemma_pow10_positive(k: nat)
    ensures
        pow10(k) >= 1,
    decreases k,
{
    if k > 0 {
        lemma_pow10_positive((k - 1) as nat);
    }
}

/// Six decimal digits of `n`, zeros in front.
pub fn padded_six(n: u32) -> (r: String)
    requires
        n < 1_000_000,
    ensures
        r@ == six_digits(n as nat),
{
    let mut r = String::new();
    let mut div: u32 = 100_000;
    let mut i: usize = 0;
    proof {
        reveal_with_fuel(pow10, 6);
    }
    while i < 6
        invariant
            i <= 6,
            i < 6 ==> div as nat == pow10((5 - i) as nat),
            i < 6 ==> div >= 1,
            r@ == six_digits(n as nat).subrange(0, i as int),
        decreases 6 - i,
    {
        let d = (n / div) % 10;
        let c = ((d as u8) + 48) as char;
        assert(c == crate::text::digit_char(d as nat));
        push_char(&mut r, c);
        assert(r@ =~= six_digits(n as nat).subrange(0, i + 1));
        proof {
            if i < 5 {
                assert(pow10((5 - i) as nat) == 10 * pow10((4 - i) as nat));
                lemma_pow10_positive((4 - i) as nat);
            }
        }
        div = div / 10;
        i = i + 1;
    }
    assert(six_digits(n as nat).subrange(0, 6) =~= six_digits(n as nat));
    r
}

/// The request time as meta-variables.
pub open spec fn time_entries(secs: nat, micros: nat) -> Seq<VarView> {
    seq![("REQUEST_TIME"@, decimal(secs)), ("REQUEST_TIME_FLOAT"@, time_text(secs, micros))]
}

pub open spec fn web_default_entries(secs: nat, micros: nat) -> Seq<VarView> {
    seq![("GATEWAY_INTERFACE"@, "CGI/1.1"@)] + time_entries(secs, micros)
}

pub open spec fn cli_default_entries(secs: nat, micros: nat) -> Seq<VarView> {
    time_entries(secs, micros) + seq![("DOCUMENT_ROOT"@, Seq::<char>::empty())]
}

/// Ordered CGI/1.1 meta-variables, repeated names allowed. The values of a few
/// names are also kept apart, as they were last set.
#[derive(Debug, Clone)]
pub struct ServerVars {
    cookie: Option<String>,
    vars: Vec<(String, String)>,
    content_type: Option<String>,
    query_string: Option<String>,
    request_method: Option<String>,
}

impl ServerVars {
    /// The meta-variables in the order they were set.
    pub closed spec fn entries(&self) -> Seq<VarView> {
        pairs_view(self.vars@)
    }

    /// The values kept apart are the last values set under their names.
    pub closed spec fn wf(&self) -> bool {
        &&& opt_text(self.cookie) == last_value(self.entries(), "HTTP_COOKIE"@)
        &&& opt_text(self.content_type) == last_value(self.entries(), "CONTENT_TYPE"@)
        &&& opt_text(self.query_string) == last_value(self.entries(), "QUERY_STRING"@)
        &&& opt_text(self.request_method) == last_value(self.entries(), "REQUEST_METHOD"@)
    }

    pub fn new() -> (r: Self)
        ensures
            r.wf(),
            r.entries().len() == 0,
    {
        ServerVars {
            cookie: None,
            vars: Vec::new(),
            content_type: None,
            query_string: None,
            request_method: None,
        }
    }

    pub fn with_capacity(cap: usize) -> (r: Self)
        ensures
            r.wf(),
            r.entries().len() == 0,
    {
        ServerVars {
            cookie: None,
            vars: Vec::with_capacity(cap),
            content_type: None,
            query_string: None,
            request_method: None,
        }
    }

    /// Appends `key = value`.
    pub fn set(&mut self, key: &str, value: &str) -> (r: &mut Self)
        requires
            old(self).wf(),
        ensures
            r.wf(),
            r.entries() == old(self).entries().push((key@, value@)),
            *final(self) == *final(r),
    {
        self.set_owned(owned(key), owned(value));
        self
    }

    /// Appends `key = value`, taking the strings.
    pub fn set_owned(&mut self, key: String, value: String)
        requires
            old(self).wf(),
        ensures
            final(self).wf(),
            final(self).entries() == old(self).entries().push((key@, value@)),
    {
        let ghost es = self.entries();
        proof {
            lemma_kept_names_differ();
        }
        if same_text(key.as_str(), "HTTP_COOKIE") {
            self.cookie = Some(value.clone());
        } else if same_text(key.as_str(), "CONTENT_TYPE") {
            self.content_type = Some(value.clone());
        } else if same_text(key.as_str(), "QUERY_STRING") {
            self.query_string = Some(value.clone());
        } else if same_text(key.as_str(), "REQUEST_METHOD") {
            self.request_method = Some(value.clone());
        }
        let ghost kv = key@;
        let ghost vv = value@;
        self.vars.push((key, value));
        assert(self.entries() =~= es.push((kv, vv)));
        assert(self.entries().drop_last() =~= es);
    }

    /// Appends each pair in order.
    pub fn extend(&mut self, pairs: Vec<(String, String)>) -> (r: &mut Self)
        requires
            old(self).wf(),
        ensures
            r.wf(),
            r.entries() == old(self).entries() + pairs_view(pairs@),
            *final(self) == *final(r),
    {
        let ghost start = self.entries();
        let ghost all = pairs@;
        let n = pairs.len();
        let mut i: usize = 0;
        while i < n
            invariant
                self.wf(),
                i <= n,
                n == all.len(),
                all == pairs@,
                self.entries() == start + pairs_view(all.subrange(0, i as int)),
            decreases n - i,
        {
            let pair = &pairs[i];
            self.set_owned(pair.0.clone(), pair.1.clone());
            i = i + 1;
            assert(pairs_view(all.subrange(0, i as int)) =~= pairs_view(
                all.subrange(0, i - 1),
            ).push((all[i - 1].0@, all[i - 1].1@)));
        }
        assert(all.subrange(0, n as int) =~= all);
        self
    }

    pub fn len(&self) -> (r: usize)
        ensures
            r == self.entries().len(),
    {
        self.vars.len()
    }

    pub fn is_empty(&self) -> (r: bool)
        ensures
            r == (self.entries().len() == 0),
    {
        self.vars.len() == 0
    }

    /// The meta-variables in the order they were set.
    pub fn iter(&self) -> (r: &[(String, String)])
        ensures
            pairs_view(r@) == self.entries(),
    {
        self.vars.as_slice()
    }

    pub fn into_vec(self) -> (r: Vec<(String, String)>)
        ensures
            pairs_view(r@) == self.entries(),
    {
        self.vars
    }

    pub fn request_method(&mut self, method: &str) -> (r: &mut Self)
        requires
            old(self).wf(),
        ensures
            r.wf(),
            r.entries() == old(self).entries().push(("REQUEST_METHOD"@, method@)),
            *final(self) == *final(r),
    {
        self.set("REQUEST_METHOD", method)
    }

    pub fn request_uri(&mut self, uri: &str) -> (r: &mut Self)
        requires
            old(self).wf(),
        ensures
            r.wf(),
            r.entries() == old(self).entries().push(("REQUEST_URI"@, uri@)),
            *final(self) == *final(r),
    {
        self.set("REQUEST_URI", uri)
    }

    pub fn query_string(&mut self, qs: &str) -> (r: &mut Self)
        requires
            old(self).wf(),
        ensures
            r.wf(),
            r.entries() == old(self).entries().push(("QUERY_STRING"@, qs@)),
            *final(self) == *final(r),
    {
        self.set("QUERY_STRING", qs)
    }

    pub fn script_filename(&mut self, path: &str) -> (r: &mut Self)
        requires
            old(self).wf(),
        ensures
            r.wf(),
            r.entries() == old(self).entries().push(("SCRIPT_FILENAME"@, path@)),
            *final(self) == *final(r),
    {
        self.set("SCRIPT_FILENAME", path)
    }

    pub fn document_root(&mut self, path: &str) -> (r: &mut Self)
        requires
            old(self).wf(),
        ensures
            r.wf(),
            r.entries() == old(self).entries().push(("DOCUMENT_ROOT"@, path@)),
            *final(self) == *final(r),
    {
        self.set("DOCUMENT_ROOT", path)
    }

    pub fn path_translated(&mut self, path: &str) -> (r: &mut Self)
        requires
            old(self).wf(),
        ensures
            r.wf(),
            r.entries() == old(self).entries().push(("PATH_TRANSLATED"@, path@)),
            *final(self) == *final(r),
    {
        self.set("PATH_TRANSLATED", path)
    }

    /// Sets `SERVER_NAME`: the host name of the server.
    pub fn server_name(&mut self, name: &str) -> (r: &mut Self)
        requires
            old(self).wf(),
        ensures
            r.wf(),
            r.entries() == old(self).entries().push(("SERVER_NAME"@, name@)),
            *final(self) == *final(r),
    {
        self.set("SERVER_NAME", name)
    }

    pub fn server_addr(&mut self, addr: &str) -> (r: &mut Self)
        requires
            old(self).wf(),
        ensures
            r.wf(),
            r.entries() == old(self).entries().push(("SERVER_ADDR"@, addr@)),
            *final(self) == *final(r),
    {
        self.set("SERVER_ADDR", addr)
    }

    /// Sets `SERVER_PROTOCOL`, as `protocol/version` (`HTTP/1.1`).
    pub fn server_protocol(&mut self, proto: &str) -> (r: &mut Self)
        requires
            old(self).wf(),
        ensures
            r.wf(),
            r.entries() == old(self).entries().push(("SERVER_PROTOCOL"@, proto@)),
            *final(self) == *final(r),
    {
        self.set("SERVER_PROTOCOL", proto)
    }

    pub fn server_software(&mut self, software: &str) -> (r: &mut Self)
        requires
            old(self).wf(),
        ensures
            r.wf(),
            r.entries() == old(self).entries().push(("SERVER_SOFTWARE"@, software@)),
            *final(self) == *final(r),
    {
        self.set("SERVER_SOFTWARE", software)
    }

    /// Sets `GATEWAY_INTERFACE`: the CGI dialect in use (`CGI/1.1`).
    pub fn gateway_interface(&mut self, gi: &str) -> (r: &mut Self)
        requires
            old(self).wf(),
        ensures
            r.wf(),
            r.entries() == old(self).entries().push(("GATEWAY_INTERFACE"@, gi@)),
            *final(self) == *final(r),
    {
        self.set("GATEWAY_INTERFACE", gi)
    }

    pub fn remote_addr(&mut self, addr: &str) -> (r: &mut Self)
        requires
            old(self).wf(),
        ensures
            r.wf(),
            r.entries() == old(self).entries().push(("REMOTE_ADDR"@, addr@)),
            *final(self) == *final(r),
    {
        self.set("REMOTE_ADDR", addr)
    }

    pub fn content_type(&mut self, ct: &str) -> (r: &mut Self)
        requires
            old(self).wf(),
        ensures
            r.wf(),
            r.entries() == old(self).entries().push(("CONTENT_TYPE"@, ct@)),
            *final(self) == *final(r),
    {
        self.set("CONTENT_TYPE", ct)
    }

    pub fn cookies(&mut self, cookie_str: &str) -> (r: &mut Self)
        requires
            old(self).wf(),
        ensures
            r.wf(),
            r.entries() == old(self).entries().push(("HTTP_COOKIE"@, cookie_str@)),
            *final(self) == *final(r),
    {
        self.set("HTTP_COOKIE", cookie_str)
    }

    pub fn argv(&mut self, args: &str) -> (r: &mut Self)
        requires
            old(self).wf(),
        ensures
            r.wf(),
            r.entries() == old(self).entries().push(("argv"@, args@)),
            *final(self) == *final(r),
    {
        self.set("argv", args)
    }

    pub fn pwd(&mut self, path: &str) -> (r: &mut Self)
        requires
            old(self).wf(),
        ensures
            r.wf(),
            r.entries() == old(self).entries().push(("PWD"@, path@)),
            *final(self) == *final(r),
    {
        self.set("PWD", path)
    }

    pub fn server_port(&mut self, port: u16) -> (r: &mut Self)
        requires
            old(self).wf(),
        ensures
            r.wf(),
            r.entries() == old(self).entries().push(("SERVER_PORT"@, decimal(port as nat))),
            *final(self) == *final(r),
    {
        self.set_owned(owned("SERVER_PORT"), u64_text(port as u64));
        self
    }

    pub fn remote_port(&mut self, port: u16) -> (r: &mut Self)
        requires
            old(self).wf(),
        ensures
            r.wf(),
            r.entries() == old(self).entries().push(("REMOTE_PORT"@, decimal(port as nat))),
            *final(self) == *final(r),
    {
        self.set_owned(owned("REMOTE_PORT"), u64_text(port as u64));
        self
    }

    pub fn content_length(&mut self, len: usize) -> (r: &mut Self)
        requires
            old(self).wf(),
        ensures
            r.wf(),
            r.entries() == old(self).entries().push(("CONTENT_LENGTH"@, decimal(len as nat))),
            *final(self) == *final(r),
    {
        self.set_owned(owned("CONTENT_LENGTH"), u64_text(len as u64));
        self
    }

    pub fn argc(&mut self, count: usize) -> (r: &mut Self)
        requires
            old(self).wf(),
        ensures
            r.wf(),
            r.entries() == old(self).entries().push(("argc"@, decimal(count as nat))),
            *final(self) == *final(r),
    {
        self.set_owned(owned("argc"), u64_text(count as u64));
        self
    }

    /// Sets `SCRIPT_NAME` and `PHP_SELF` to the same name.
    pub fn script_name(&mut self, name: &str) -> (r: &mut Self)
        requires
            old(self).wf(),
        ensures
            r.wf(),
            r.entries() == old(self).entries().push(("SCRIPT_NAME"@, name@)).push(
                ("PHP_SELF"@, name@),
            ),
            *final(self) == *final(r),
    {
        self.set_owned(owned("SCRIPT_NAME"), owned(name));
        self.set_owned(owned("PHP_SELF"), owned(name));
        self
    }

    pub fn set_empty_document_root(&mut self) -> (r: &mut Self)
        requires
            old(self).wf(),
        ensures
            r.wf(),
            r.entries() == old(self).entries().push(("DOCUMENT_ROOT"@, Seq::<char>::empty())),
            *final(self) == *final(r),
    {
        self.set_owned(owned("DOCUMENT_ROOT"), String::new());
        self
    }

    /// Sets `PATH_INFO`, and `PATH_TRANSLATED` as the document root followed by it.
    pub fn path_info(&mut self, path_info: &str, document_root: &str) -> (r: &mut Self)
        requires
            old(self).wf(),
        ensures
            r.wf(),
            r.entries() == old(self).entries().push(("PATH_INFO"@, path_info@)).push(
                ("PATH_TRANSLATED"@, document_root@ + path_info@),
            ),
            *final(self) == *final(r),
    {
        self.set_owned(owned("PATH_INFO"), owned(path_info));
        self.set_owned(owned("PATH_TRANSLATED"), concat(document_root, path_info));
        self
    }

    /// `HTTPS=on` and `REQUEST_SCHEME=https` when enabled, else only
    /// `REQUEST_SCHEME=http`.
    pub fn https(&mut self, enabled: bool) -> (r: &mut Self)
        requires
            old(self).wf(),
        ensures
            r.wf(),
            enabled ==> r.entries() == old(self).entries().push(("HTTPS"@, "on"@)).push(
                ("REQUEST_SCHEME"@, "https"@),
            ),
            !enabled ==> r.entries() == old(self).entries().push(("REQUEST_SCHEME"@, "http"@)),
            *final(self) == *final(r),
    {
        if enabled {
            self.set_owned(owned("HTTPS"), owned("on"));
            self.set_owned(owned("REQUEST_SCHEME"), owned("https"));
        } else {
            self.set_owned(owned("REQUEST_SCHEME"), owned("http"));
        }
        self
    }

    /// Passes a request header on under its meta-variable name.
    pub fn http_header(&mut self, name: &str, value: &str) -> (r: &mut Self)
        requires
            old(self).wf(),
        ensures
            r.wf(),
            r.entries() == old(self).entries().push((header_var_name(name@), value@)),
            *final(self) == *final(r),
    {
        let upper = uppercase(name);
        let u = underscored(upper.as_str());
        if same_text(u.as_str(), "CONTENT_TYPE") || same_text(u.as_str(), "CONTENT_LENGTH") {
            self.set_owned(u, owned(value));
        } else {
            self.set_owned(concat("HTTP_", u.as_str()), owned(value));
        }
        self
    }

    /// Sets `REQUEST_TIME` and `REQUEST_TIME_FLOAT` from the clock.
    pub fn request_time(&mut self) -> (r: &mut Self)
        requires
            old(self).wf(),
        ensures
            r.wf(),
            exists|secs: nat, micros: nat|
                r.entries() == old(self).entries().push(("REQUEST_TIME"@, decimal(secs))).push(
                    ("REQUEST_TIME_FLOAT"@, time_text(secs, micros)),
                ),
            *final(self) == *final(r),
    {
        let (secs, micros) = unix_now();
        self.request_time_at(secs, micros);
        self
    }

    /// Sets `REQUEST_TIME` and `REQUEST_TIME_FLOAT` for the given instant.
    pub fn request_time_at(&mut self, secs: u64, micros: u32) -> (r: &mut Self)
        requires
            old(self).wf(),
            micros < 1_000_000,
        ensures
            r.wf(),
            r.entries() == old(self).entries().push(("REQUEST_TIME"@, decimal(secs as nat))).push(
                ("REQUEST_TIME_FLOAT"@, time_text(secs as nat, micros as nat)),
            ),
            *final(self) == *final(r),
    {
        let mut t = u64_text(secs);
        push_char(&mut t, '.');
        let frac = padded_six(micros);
        push_text(&mut t, frac.as_str());
        assert(t@ =~= time_text(secs as nat, micros as nat));
        self.set_owned(owned("REQUEST_TIME"), u64_text(secs));
        self.set_owned(owned("REQUEST_TIME_FLOAT"), t);
        self
    }

    /// The defaults of a web request: `GATEWAY_INTERFACE=CGI/1.1` and the
    /// request time, read from the clock.
    pub fn web_defaults() -> (r: Self)
        ensures
            r.wf(),
            exists|secs: nat, micros: nat| r.entries() == web_default_entries(secs, micros),
    {
        let (secs, micros) = unix_now();
        Self::web_defaults_at(secs, micros)
    }

    /// The defaults of a web request at the given request time.
    pub fn web_defaults_at(secs: u64, micros: u32) -> (r: Self)
        requires
            micros < 1_000_000,
        ensures
            r.wf(),
            r.entries() == web_default_entries(secs as nat, micros as nat),
    {
        let mut vars = Self::with_capacity(24);
        vars.gateway_interface("CGI/1.1").request_time_at(secs, micros);
        assert(vars.entries() =~= web_default_entries(secs as nat, micros as nat));
        vars
    }

    /// The defaults of a command-line run: the request time, read from the
    /// clock, and an empty `DOCUMENT_ROOT`.
    pub fn cli_defaults() -> (r: Self)
        ensures
            r.wf(),
            exists|secs: nat, micros: nat| r.entries() == cli_default_entries(secs, micros),
    {
        let (secs, micros) = unix_now();
        Self::cli_defaults_at(secs, micros)
    }

    /// The defaults of a command-line run at the given request time.
    pub fn cli_defaults_at(secs: u64, micros: u32) -> (r: Self)
        requires
            micros < 1_000_000,
        ensures
            r.wf(),
            r.entries() == cli_default_entries(secs as nat, micros as nat),
    {
        let mut vars = Self::with_capacity(12);
        vars.request_time_at(secs, micros).set_empty_document_root();
        assert(vars.entries() =~= cli_default_entries(secs as nat, micros as nat));
        vars
    }

    pub fn get_content_type(&self) -> (r: Option<&str>)
        requires
            self.wf(),
        ensures
            opt_str(r) == last_value(self.entries(), "CONTENT_TYPE"@),
    {
        match &self.content_type {
            Some(s) => Some(s.as_str()),
            None => None,
        }
    }

    pub fn get_query_string(&self) -> (r: Option<&str>)
        requires
            self.wf(),
        ensures
            opt_str(r) == last_value(self.entries(), "QUERY_STRING"@),
    {
        match &self.query_string {
            Some(s) => Some(s.as_str()),
            None => None,
        }
    }

    pub fn get_cookie(&self) -> (r: Option<&str>)
        requires
            self.wf(),
        ensures
            opt_str(r) == last_value(self.entries(), "HTTP_COOKIE"@),
    {
        match &self.cookie {
            Some(s) => Some(s.as_str()),
            None => None,
        }
    }

    pub fn get_request_method(&self) -> (r: Option<&str>)
        requires
            self.wf(),
        ensures
            opt_str(r) == last_value(self.entries(), "REQUEST_METHOD"@),
    {
        match &self.request_method {
            Some(s) => Some(s.as_str()),
            None => None,
        }
    }
}

} // verus!
