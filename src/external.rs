//! Actions to perform once the application has ended and the terminal has
//! been restored.
use crate::text::{append_str, push_char};
use vstd::prelude::*;
use vstd::string::*;

verus! {

/// Pattern of the paths that a shell takes as they are.
pub const SIMPLE_PATH: &'static str = r"^[\w/.-]*$";

/// Whether `pattern` is a valid regular expression that matches somewhere
/// in `text`.
pub uninterp spec fn regex_accepts(pattern: Seq<char>, text: Seq<char>) -> bool;

/// Relies on regex::Regex::new and Regex::is_match: compiles the pattern
/// and tells whether it matches the text; an invalid pattern matches
/// nothing.
#[verifier::external_body]
pub(crate) fn regex_is_match(pattern: &str, text: &str) -> (r: bool)
    ensures
        r == regex_accepts(pattern@, text@),
{
    match regex::Regex::new(pattern) {
        Ok(re) => re.is_match(text),
        Err(_) => false,
    }
}

/// Error building a launchable.
#[derive(PartialEq, Eq, Structural)]
pub enum LaunchError {
    /// The launch string holds no program.
    EmptyLaunchString,
}

impl LaunchError {
    pub fn message(&self) -> (r: &'static str)
        ensures
            r@ == "Empty launch string"@,
    {
        "Empty launch string"
    }
}

/// Whether a launch string part names an environment variable (`$NAME`).
pub open spec fn is_env_reference(part: Seq<char>) -> bool {
    part.len() > 0 && part[0] == '$'
}

/// A part with an environment variable reference replaced by the
/// variable's value, when it is set.
pub open spec fn resolved(part: Seq<char>, value: Option<String>) -> Seq<char> {
    if is_env_reference(part) && value is Some {
        value->0@
    } else {
        part
    }
}

/// The value given for part `i`, `None` past the end.
pub open spec fn value_at(values: Seq<Option<String>>, i: int) -> Option<String> {
    if 0 <= i < values.len() {
        values[i]
    } else {
        None
    }
}

/// The name of the environment variable a part refers to, if it is such
/// a reference.
pub fn env_variable_name(part: &str) -> (r: Option<String>)
    ensures
        is_env_reference(part@) ==> r is Some && r->0@ == part@.drop_first(),
        !is_env_reference(part@) ==> r is None,
{
    let n = part.unicode_len();
    if n > 0 && part.get_char(0) == '$' {
        Some(part.substring_char(1, n).to_owned())
    } else {
        None
    }
}

/// If `s` starts with a `$`, replaces it by `value`, the value of the
/// environment variable of the same name, when it is set.
pub fn resolve_env_variable(s: String, value: Option<String>) -> (r: String)
    ensures
        r@ == resolved(s@, value),
{
    let n = s.as_str().unicode_len();
    if n > 0 && s.as_str().get_char(0) == '$' {
        match value {
            Some(v) => v,
            None => s,
        }
    } else {
        s
    }
}

/// The text of a path quoted for a shell: wrapped in single quotes, each
/// inner single quote written `'\''`.
pub open spec fn shell_quoted(s: Seq<char>) -> Seq<char> {
    seq!['\''] + quotes_escaped(s) + seq!['\'']
}

pub open spec fn quotes_escaped(s: Seq<char>) -> Seq<char>
    decreases s.len(),
{
    if s.len() == 0 {
        Seq::empty()
    } else {
        quotes_escaped(s.drop_last()) + if s.last() == '\'' {
            seq!['\'', '\\', '\'', '\'']
        } else {
            seq![s.last()]
        }
    }
}

/// A path made usable in a shell command: kept as it is when `simple`,
/// else quoted.
pub fn escape_with(path: &str, simple: bool) -> (r: String)
    ensures
        r@ == if simple {
            path@
        } else {
            shell_quoted(path@)
        },
{
    if simple {
        return path.to_owned();
    }
    let mut r = String::new();
    push_char(&mut r, '\'');
    let n = path.unicode_len();
    let mut i: usize = 0;
    while i < n
        invariant
            n == path@.len(),
            i <= n,
            r@ == seq!['\''] + quotes_escaped(path@.subrange(0, i as int)),
        decreases n - i,
    {
        let c = path.get_char(i);
        let ghost before = r@;
        if c == '\'' {
            append_str(&mut r, "'\\''");
            proof {
                reveal_strlit("'\\''");
            }
        } else {
            push_char(&mut r, c);
        }
        assert(path@.subrange(0, i + 1).drop_last() =~= path@.subrange(0, i as int));
        assert(r@ =~= seq!['\''] + quotes_escaped(path@.subrange(0, i + 1)));
        i = i + 1;
    }
    assert(path@.subrange(0, n as int) =~= path@);
    push_char(&mut r, '\'');
    r
}

/// From a path, builds a string usable in a shell command, wrapping it in
/// quotes when needed (and then escaping inner quotes). Paths that need
/// nothing are kept as they are, so that they look better on screen.
pub fn escape_for_shell(path: &str) -> (r: String)
    ensures
        r@ == if regex_accepts(SIMPLE_PATH@, path@) {
            path@
        } else {
            shell_quoted(path@)
        },
{
    escape_with(path, regex_is_match(SIMPLE_PATH, path))
}

/// Description of a possible launch of an external program.
/// A launchable is only executed after the application has ended.
pub enum Launchable {
    /// Print something on standard output.
    Printer { to_print: String },
    /// Execute an external program.
    Program { exe: String, args: Vec<String> },
    /// Open a path with the system's handler.
    SystemOpen { path: String },
}

impl Launchable {
    pub fn opener(path: String) -> (r: Launchable)
        ensures
            r == (Launchable::SystemOpen { path }),
    {
        Launchable::SystemOpen { path }
    }

    pub fn printer(to_print: String) -> (r: Launchable)
        ensures
            r == (Launchable::Printer { to_print }),
    {
        Launchable::Printer { to_print }
    }

    /// A program launch from the parts of a launch string: the first part
    /// is the program, the others its arguments. `values[i]` is the value
    /// of the environment variable that part `i` refers to, if any.
    pub fn program(parts: Vec<String>, values: Vec<Option<String>>) -> (r: Result<
        Launchable,
        LaunchError,
    >)
        ensures
            parts.len() == 0 <==> r == Err::<Launchable, LaunchError>(LaunchError::EmptyLaunchString),
            parts.len() > 0 ==> (r matches Ok(Launchable::Program { exe, args }) && (exe@
                == resolved(parts[0]@, value_at(values@, 0)) && args.len() == parts.len() - 1
                && forall|i: int|
                0 <= i < args.len() ==> #[trigger] args[i]@ == resolved(
                    parts[i + 1]@,
                    value_at(values@, i + 1),
                ))),
    {
        if parts.len() == 0 {
            return Err(LaunchError::EmptyLaunchString);
        }
        let mut resolved_parts: Vec<String> = Vec::new();
        let mut i: usize = 0;
        while i < parts.len()
            invariant
                i <= parts.len(),
                resolved_parts.len() == i,
                forall|j: int|
                    0 <= j < i ==> #[trigger] resolved_parts[j]@ == resolved(
                        parts[j]@,
                        value_at(values@, j),
                    ),
            decreases parts.len() - i,
        {
            let value = if i < values.len() {
                values[i].clone()
            } else {
                None
            };
            resolved_parts.push(resolve_env_variable(parts[i].clone(), value));
            i = i + 1;
        }
        let args = resolved_parts.split_off(1);
        let exe = resolved_parts.pop().unwrap();
        Ok(Launchable::Program { exe, args })
    }
}

} // verus!
