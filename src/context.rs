//! The input of one request, as an adapter builds it.

use vstd::prelude::*;

use crate::server_vars::{pairs_view, ServerVars, VarView};
use crate::text::{decimal, owned, push_char, push_text, u64_text};

verus! {

/// The characters that `char::is_control` accepts: the Unicode `Cc` category.
pub open spec fn control_char(c: char) -> bool {
    (c as u32) < 0x20 || (0x7f <= (c as u32) && (c as u32) <= 0x9f)
}

/// A lowercase hexadecimal digit.
pub open spec fn hex_digit(d: nat) -> char {
    if d < 10 {
        ((('0' as u32) + d) as char)
    } else {
        ((('a' as u32) + d - 10) as char)
    }
}

/// One character as shown: a control character other than tab and newline
/// as `\x` and two hexadecimal digits, any other as it is.
pub open spec fn shown_char(c: char) -> Seq<char> {
    if control_char(c) && c != '\t' && c != '\n' {
        seq!['\\', 'x', hex_digit((c as u32 / 16) as nat), hex_digit((c as u32 % 16) as nat)]
    } else {
        seq![c]
    }
}

/// A text with its control characters escaped.
pub open spec fn escaped(s: Seq<char>) -> Seq<char>
    decreases s.len(),
{
    if s.len() == 0 {
        Seq::empty()
    } else {
        escaped(s.drop_last()) + shown_char(s.last())
    }
}

/// A value as shown: escaped, and cut to 57 characters and `...` where the
/// escaped text is longer than 60.
pub open spec fn shown_value(v: Seq<char>) -> Seq<char> {
    let e = escaped(v);
    if e.len() > 60 {
        e.subrange(0, 57) + "..."@
    } else {
        e
    }
}

/// One meta-variable's line.
pub open spec fn var_line(p: VarView) -> Seq<char> {
    "    "@ + p.0 + " = \""@ + shown_value(p.1) + "\"\n"@
}

/// The lines of the given meta-variables.
pub open spec fn var_lines(es: Seq<VarView>) -> Seq<char>
    decreases es.len(),
{
    if es.len() == 0 {
        Seq::empty()
    } else {
        var_lines(es.drop_last()) + var_line(es.last())
    }
}

/// The meta-variables' block: at most fifteen lines, and how many more.
pub open spec fn vars_block(es: Seq<VarView>) -> Seq<char> {
    if es.len() == 0 {
        "  server_vars: []\n"@
    } else {
        let shown = if es.len() > 15 { es.subrange(0, 15) } else { es };
        let more = if es.len() > 15 {
            "    ... ("@ + decimal((es.len() - 15) as nat) + " more)\n"@
        } else {
            Seq::empty()
        };
        "  server_vars: [\n"@ + var_lines(shown) + more + "  ]\n"@
    }
}

/// The whole description of a context.
pub open spec fn description(path: Seq<char>, es: Seq<VarView>, input_len: nat) -> Seq<char> {
    "ExecutionContext {\n"@ + "  script: "@ + path + "\n"@ + vars_block(es) + "  input: "@ + decimal(
        input_len,
    ) + " bytes\n"@ + "}"@
}

/// `char::is_control`.
pub fn is_control_char(c: char) -> (r: bool)
    ensures
        r == control_char(c),
{
    let u = c as u32;
    u < 0x20 || (0x7f <= u && u <= 0x9f)
}

fn hex_char(d: u32) -> (r: char)
    requires
        d < 16,
    ensures
        r == hex_digit(d as nat),
{
    if d < 10 {
        ((d as u8) + 48) as char
    } else {
        ((d as u8) + 87) as char
    }
}

/// Appends `s` with its control characters escaped.
fn push_escaped(out: &mut String, s: &str)
    ensures
        final(out)@ == old(out)@ + escaped(s@),
{
    let n = s.unicode_len();
    let mut i: usize = 0;
    let ghost start = out@;
    while i < n
        invariant
            n == s@.len(),
            i <= n,
            out@ == start + escaped(s@.subrange(0, i as int)),
        decreases n - i,
    {
        let c = s.get_char(i);
        let ghost before = out@;
        if is_control_char(c) && c != '\t' && c != '\n' {
            let u = c as u32;
            push_char(out, '\\');
            push_char(out, 'x');
            push_char(out, hex_char(u / 16));
            push_char(out, hex_char(u % 16));
        } else {
            push_char(out, c);
        }
        assert(out@ =~= before + shown_char(c));
        assert(s@.subrange(0, i + 1).drop_last() =~= s@.subrange(0, i as int));
        i = i + 1;
    }
    assert(s@.subrange(0, n as int) =~= s@);
}

/// The escaped value, cut as `shown_value` says.
fn shown(v: &str) -> (r: String)
    ensures
        r@ == shown_value(v@),
{
    let mut e = String::new();
    push_escaped(&mut e, v);
    assert(e@ =~= escaped(v@));
    let n = e.as_str().unicode_len();
    if n > 60 {
        let mut cut = owned(e.as_str().substring_char(0, 57));
        push_text(&mut cut, "...");
        cut
    } else {
        e
    }
}

/// Script, request body, meta-variables and the per-request environment and
/// configuration overrides. Consumed by one execution.
#[derive(Debug, Clone)]
pub struct ExecutionContext {
    pub input: Vec<u8>,
    pub script_path: String,
    pub server_vars: ServerVars,
    pub env_vars: Vec<(String, String)>,
    pub ini_overrides: Vec<(String, String)>,
    pub log_to_stderr: bool,
}

impl ExecutionContext {
    pub open spec fn wf(&self) -> bool {
        self.server_vars.wf()
    }

    /// A context for `path` with nothing else set.
    pub fn script(path: &str) -> (r: Self)
        ensures
            r.wf(),
            r.script_path@ == path@,
            r.input@.len() == 0,
            r.server_vars.entries().len() == 0,
            r.env_vars@.len() == 0,
            r.ini_overrides@.len() == 0,
            !r.log_to_stderr,
    {
        ExecutionContext {
            input: Vec::new(),
            script_path: owned(path),
            server_vars: ServerVars::new(),
            env_vars: Vec::new(),
            ini_overrides: Vec::new(),
            log_to_stderr: false,
        }
    }

    /// Adds one meta-variable.
    pub fn var(self, key: &str, value: &str) -> (r: Self)
        requires
            self.wf(),
        ensures
            r.wf(),
            r.server_vars.entries() == self.server_vars.entries().push((key@, value@)),
            r.script_path == self.script_path,
            r.input == self.input,
            r.env_vars == self.env_vars,
            r.ini_overrides == self.ini_overrides,
            r.log_to_stderr == self.log_to_stderr,
    {
        let mut s = self;
        s.server_vars.set(key, value);
        s
    }

    /// Adds meta-variables in order.
    pub fn vars(self, pairs: Vec<(String, String)>) -> (r: Self)
        requires
            self.wf(),
        ensures
            r.wf(),
            r.server_vars.entries() == self.server_vars.entries() + pairs_view(pairs@),
            r.script_path == self.script_path,
            r.input == self.input,
            r.env_vars == self.env_vars,
            r.ini_overrides == self.ini_overrides,
            r.log_to_stderr == self.log_to_stderr,
    {
        let mut s = self;
        s.server_vars.extend(pairs);
        s
    }

    /// Sets the request body.
    pub fn input(self, bytes: Vec<u8>) -> (r: Self)
        ensures
            r.input@ == bytes@,
            r.script_path == self.script_path,
            r.server_vars == self.server_vars,
            r.env_vars == self.env_vars,
            r.ini_overrides == self.ini_overrides,
            r.log_to_stderr == self.log_to_stderr,
    {
        let mut s = self;
        s.input = bytes;
        s
    }

    /// Adds an environment variable visible to the script.
    pub fn env(self, key: &str, value: &str) -> (r: Self)
        ensures
            pairs_view(r.env_vars@) == pairs_view(self.env_vars@).push((key@, value@)),
            r.script_path == self.script_path,
            r.input == self.input,
            r.server_vars == self.server_vars,
            r.ini_overrides == self.ini_overrides,
            r.log_to_stderr == self.log_to_stderr,
    {
        let mut s = self;
        s.env_vars.push((owned(key), owned(value)));
        assert(pairs_view(s.env_vars@) =~= pairs_view(self.env_vars@).push((key@, value@)));
        s
    }

    /// Adds environment variables in order.
    pub fn envs(self, pairs: Vec<(String, String)>) -> (r: Self)
        ensures
            r.env_vars@ == self.env_vars@ + pairs@,
            r.script_path == self.script_path,
            r.input == self.input,
            r.server_vars == self.server_vars,
            r.ini_overrides == self.ini_overrides,
            r.log_to_stderr == self.log_to_stderr,
    {
        let mut s = self;
        let mut more = pairs;
        s.env_vars.append(&mut more);
        s
    }

    /// Adds a configuration override for this request only.
    pub fn ini(self, key: &str, value: &str) -> (r: Self)
        ensures
            pairs_view(r.ini_overrides@) == pairs_view(self.ini_overrides@).push((key@, value@)),
            r.script_path == self.script_path,
            r.input == self.input,
            r.server_vars == self.server_vars,
            r.env_vars == self.env_vars,
            r.log_to_stderr == self.log_to_stderr,
    {
        let mut s = self;
        s.ini_overrides.push((owned(key), owned(value)));
        assert(pairs_view(s.ini_overrides@) =~= pairs_view(self.ini_overrides@).push(
            (key@, value@),
        ));
        s
    }

    /// A description for people: the script, up to fifteen meta-variables
    /// with their values escaped and cut, and the size of the input.
    pub fn describe(&self) -> (r: String)
        ensures
            r@ == description(self.script_path@, self.server_vars.entries(), self.input@.len()),
    {
        let vars = self.server_vars.iter();
        let ghost es = self.server_vars.entries();
        let mut r = owned("ExecutionContext {\n");
        push_text(&mut r, "  script: ");
        push_text(&mut r, self.script_path.as_str());
        push_text(&mut r, "\n");
        let ghost head = r@;
        let count = vars.len();
        if count == 0 {
            push_text(&mut r, "  server_vars: []\n");
        } else {
            push_text(&mut r, "  server_vars: [\n");
            let shown_count = if count > 15 {
                15
            } else {
                count
            };
            let ghost lines_start = r@;
            let mut i: usize = 0;
            while i < shown_count
                invariant
                    shown_count <= count,
                    count == vars@.len(),
                    pairs_view(vars@) == es,
                    i <= shown_count,
                    r@ == lines_start + var_lines(es.subrange(0, i as int)),
                decreases shown_count - i,
            {
                let ghost before = r@;
                push_text(&mut r, "    ");
                push_text(&mut r, vars[i].0.as_str());
                push_text(&mut r, " = \"");
                let v = shown(vars[i].1.as_str());
                push_text(&mut r, v.as_str());
                push_text(&mut r, "\"\n");
                assert(es[i as int] == (vars@[i as int].0@, vars@[i as int].1@));
                assert(r@ =~= before + var_line(es[i as int]));
                assert(es.subrange(0, i + 1).drop_last() =~= es.subrange(0, i as int));
                i = i + 1;
            }
            let ghost after_lines = r@;
            if count > shown_count {
                push_text(&mut r, "    ... (");
                let more = u64_text((count - shown_count) as u64);
                push_text(&mut r, more.as_str());
                push_text(&mut r, " more)\n");
            }
            push_text(&mut r, "  ]\n");
            if count > 15 {
                assert(r@ =~= head + vars_block(es));
            } else {
                assert(es.subrange(0, count as int) =~= es);
                assert(r@ =~= head + vars_block(es));
            }
        }
        let ghost mid = r@;
        push_text(&mut r, "  input: ");
        let len_text = u64_text(self.input.len() as u64);
        push_text(&mut r, len_text.as_str());
        push_text(&mut r, " bytes\n");
        push_text(&mut r, "}");
        assert(r@ =~= description(self.script_path@, es, self.input@.len()));
        r
    }
}

} // verus!
