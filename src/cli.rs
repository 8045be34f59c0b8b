//! Command-line runs: a builder with arguments, standard input and no HTTP context.

use vstd::prelude::*;

use crate::context::ExecutionContext;
use crate::paths::{file_name, path_file_name};
use crate::server_vars::{cli_default_entries, pairs_view, unix_now, ServerVars, VarView};
use crate::text::{concat, decimal, owned, push_char, push_text};

verus! {

/// Why a command-line run could not be built.
#[derive(Debug, Clone)]
pub enum CliRequestError {
    ScriptNotFound(String),
}

impl CliRequestError {
    /// A sentence for people.
    pub fn to_string(&self) -> (r: String)
        ensures
            match self {
                CliRequestError::ScriptNotFound(p) => r@ == "Script not found: "@ + p@,
            },
    {
        match self {
            CliRequestError::ScriptNotFound(p) => concat("Script not found: ", p.as_str()),
        }
    }
}

/// A builder for a command-line run of a script.
#[derive(Debug, Clone)]
pub struct CliRequest {
    pub stdin: Vec<u8>,
    pub argv: Vec<String>,
    pub working_dir: Option<String>,
    pub env_vars: Vec<(String, String)>,
    pub ini_overrides: Vec<(String, String)>,
}

/// The configuration a command-line run starts with.
pub open spec fn cli_ini_defaults() -> Seq<VarView> {
    seq![
        ("html_errors"@, "0"@),
        ("display_errors"@, "1"@),
        ("implicit_flush"@, "1"@),
        ("max_input_time"@, "-1"@),
        ("output_buffering"@, "0"@),
        ("max_execution_time"@, "0"@),
    ]
}

/// Words joined by single spaces.
pub open spec fn joined(ws: Seq<Seq<char>>) -> Seq<char>
    decreases ws.len(),
{
    if ws.len() == 0 {
        Seq::empty()
    } else if ws.len() == 1 {
        ws[0]
    } else {
        joined(ws.drop_last()) + seq![' '] + ws.last()
    }
}

pub open spec fn strings_view(v: Seq<String>) -> Seq<Seq<char>> {
    v.map_values(|s: String| s@)
}

/// The meta-variables of a command-line run that follow the defaults.
pub open spec fn cli_entries(req: CliRequest, filename: Seq<char>) -> Seq<VarView> {
    let name = file_name(filename);
    seq![
        ("SCRIPT_FILENAME"@, filename),
        ("SCRIPT_NAME"@, name),
        ("PHP_SELF"@, name),
        ("PATH_TRANSLATED"@, filename),
        ("argc"@, decimal(crate::buffer::sat(req.argv@.len() + 1))),
        ("argv"@, joined(seq![name] + strings_view(req.argv@))),
    ] + match req.working_dir {
        Some(wd) => seq![("PWD"@, wd@)],
        None => Seq::empty(),
    }
}

impl Default for CliRequest {
    fn default() -> (r: Self)
        ensures
            r.stdin@.len() == 0,
            r.argv@.len() == 0,
            r.working_dir is None,
            r.env_vars@.len() == 0,
            pairs_view(r.ini_overrides@) == cli_ini_defaults(),
    {
        let mut ini: Vec<(String, String)> = Vec::new();
        ini.push((owned("html_errors"), owned("0")));
        ini.push((owned("display_errors"), owned("1")));
        ini.push((owned("implicit_flush"), owned("1")));
        ini.push((owned("max_input_time"), owned("-1")));
        ini.push((owned("output_buffering"), owned("0")));
        ini.push((owned("max_execution_time"), owned("0")));
        assert(pairs_view(ini@) =~= cli_ini_defaults());
        CliRequest {
            stdin: Vec::new(),
            argv: Vec::new(),
            working_dir: None,
            env_vars: Vec::new(),
            ini_overrides: ini,
        }
    }
}

impl CliRequest {
    pub fn new() -> (r: Self)
        ensures
            r.stdin@.len() == 0,
            r.argv@.len() == 0,
            r.working_dir is None,
            r.env_vars@.len() == 0,
            pairs_view(r.ini_overrides@) == cli_ini_defaults(),
    {
        Self::default()
    }

    /// Adds one argument after the script name.
    pub fn with_arg(self, s: &str) -> (r: Self)
        ensures
            strings_view(r.argv@) == strings_view(self.argv@).push(s@),
            r == (CliRequest { argv: r.argv, ..self }),
    {
        let mut r = self;
        let ghost before = r.argv@;
        r.argv.push(owned(s));
        assert(strings_view(r.argv@) =~= strings_view(before).push(s@));
        r
    }

    /// Adds arguments in order.
    pub fn with_args(self, args: Vec<String>) -> (r: Self)
        ensures
            r.argv@ == self.argv@ + args@,
            r == (CliRequest { argv: r.argv, ..self }),
    {
        let mut r = self;
        let mut more = args;
        r.argv.append(&mut more);
        r
    }

    pub fn with_stdin(self, bytes: Vec<u8>) -> (r: Self)
        ensures
            r == (CliRequest { stdin: bytes, ..self }),
    {
        let mut r = self;
        r.stdin = bytes;
        r
    }

    pub fn with_env(self, key: &str, value: &str) -> (r: Self)
        ensures
            pairs_view(r.env_vars@) == pairs_view(self.env_vars@).push((key@, value@)),
            r == (CliRequest { env_vars: r.env_vars, ..self }),
    {
        let mut r = self;
        let ghost before = r.env_vars@;
        r.env_vars.push((owned(key), owned(value)));
        assert(pairs_view(r.env_vars@) =~= pairs_view(before).push((key@, value@)));
        r
    }

    pub fn with_envs(self, pairs: Vec<(String, String)>) -> (r: Self)
        ensures
            r.env_vars@ == self.env_vars@ + pairs@,
            r == (CliRequest { env_vars: r.env_vars, ..self }),
    {
        let mut r = self;
        let mut more = pairs;
        r.env_vars.append(&mut more);
        r
    }

    pub fn with_ini(self, key: &str, value: &str) -> (r: Self)
        ensures
            pairs_view(r.ini_overrides@) == pairs_view(self.ini_overrides@).push((key@, value@)),
            r == (CliRequest { ini_overrides: r.ini_overrides, ..self }),
    {
        let mut r = self;
        let ghost before = r.ini_overrides@;
        r.ini_overrides.push((owned(key), owned(value)));
        assert(pairs_view(r.ini_overrides@) =~= pairs_view(before).push((key@, value@)));
        r
    }

    pub fn with_ini_overrides(self, pairs: Vec<(String, String)>) -> (r: Self)
        ensures
            r.ini_overrides@ == self.ini_overrides@ + pairs@,
            r == (CliRequest { ini_overrides: r.ini_overrides, ..self }),
    {
        let mut r = self;
        let mut more = pairs;
        r.ini_overrides.append(&mut more);
        r
    }

    pub fn with_working_dir(self, path: &str) -> (r: Self)
        ensures
            r.working_dir matches Some(w) && w@ == path@,
            r == (CliRequest { working_dir: r.working_dir, ..self }),
    {
        let mut r = self;
        r.working_dir = Some(owned(path));
        r
    }

    /// Builds the execution context for the script at `script_path`.
    /// `resolved` is the script's canonical path where the script exists,
    /// `None` where it does not; `secs`.`micros` is the request time.
    pub fn build_at(self, script_path: &str, resolved: Option<String>, secs: u64, micros: u32) -> (r:
        Result<ExecutionContext, CliRequestError>)
        requires
            micros < 1_000_000,
        ensures
            resolved is None ==> (r matches Err(CliRequestError::ScriptNotFound(p)) && p@
                == script_path@),
            resolved is Some ==> (r matches Ok(ctx) && ctx.wf() && ctx.script_path@
                == script_path@ && ctx.server_vars.entries() == cli_default_entries(
                secs as nat,
                micros as nat,
            ) + cli_entries(self, resolved->0@) && ctx.input == self.stdin && ctx.env_vars
                == self.env_vars && ctx.ini_overrides == self.ini_overrides && ctx.log_to_stderr),
    {
        let filename = match resolved {
            Some(f) => f,
            None => {
                return Err(CliRequestError::ScriptNotFound(owned(script_path)));
            },
        };
        let mut vars = ServerVars::cli_defaults_at(secs, micros);
        let ghost start = vars.entries();
        let name = path_file_name(filename.as_str());
        let line = argv_text(name.as_str(), &self.argv);
        vars.script_filename(filename.as_str());
        vars.script_name(name.as_str());
        vars.path_translated(filename.as_str());
        vars.argc(self.argv.len().saturating_add(1));
        vars.argv(line.as_str());
        match &self.working_dir {
            Some(wd) => {
                vars.pwd(wd.as_str());
            },
            None => {},
        }
        assert(vars.entries() =~= start + cli_entries(self, filename@));
        Ok(
            ExecutionContext {
                script_path: owned(script_path),
                server_vars: vars,
                input: self.stdin,
                env_vars: self.env_vars,
                ini_overrides: self.ini_overrides,
                log_to_stderr: true,
            },
        )
    }

    /// Builds the execution context with the request time read from the clock.
    pub fn build(self, script_path: &str, resolved: Option<String>) -> (r: Result<
        ExecutionContext,
        CliRequestError,
    >)
        ensures
            resolved is None ==> (r matches Err(CliRequestError::ScriptNotFound(p)) && p@
                == script_path@),
            resolved is Some ==> (r matches Ok(ctx) && ctx.wf() && ctx.script_path@
                == script_path@ && (exists|secs: nat, micros: nat|
                ctx.server_vars.entries() == cli_default_entries(secs, micros) + cli_entries(
                    self,
                    resolved->0@,
                )) && ctx.input == self.stdin && ctx.env_vars == self.env_vars
                && ctx.ini_overrides == self.ini_overrides && ctx.log_to_stderr),
    {
        let (secs, micros) = unix_now();
        self.build_at(script_path, resolved, secs, micros)
    }
}

/// The script name and the arguments joined by spaces.
fn argv_text(name: &str, args: &Vec<String>) -> (r: String)
    ensures
        r@ == joined(seq![name@] + strings_view(args@)),
{
    let ghost ws = seq![name@] + strings_view(args@);
    let mut r = owned(name);
    let mut i: usize = 0;
    assert(ws.subrange(0, 1) =~= seq![name@]);
    while i < args.len()
        invariant
            i <= args@.len(),
            ws == seq![name@] + strings_view(args@),
            r@ == joined(ws.subrange(0, i + 1)),
        decreases args@.len() - i,
    {
        let ghost next = ws.subrange(0, i + 2);
        assert(next.drop_last() =~= ws.subrange(0, i + 1));
        assert(next.last() == args@[i as int]@);
        push_char(&mut r, ' ');
        push_text(&mut r, args[i].as_str());
        i = i + 1;
        assert(r@ =~= joined(next));
    }
    assert(ws.subrange(0, i + 1) =~= ws);
    r
}

} // verus!
