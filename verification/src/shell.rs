//! Shell-quoting of agent commands, through the `shell_words` crate.

use vstd::prelude::*;
use vstd::string::StringExecFns;

verus! {

/// The single command line that `shell_words::join` renders for these
/// words. The quoting keeps each word's boundaries, so the rendering is
/// a function of the words alone; its exact shape is left to the crate.
pub uninterp spec fn shell_joined(words: Seq<Seq<char>>) -> Seq<char>;

/// Relies on `shell_words::join`: quotes each word so that the joined
/// line keeps the original word boundaries when a POSIX shell reads it;
/// the result depends on the words alone.
#[verifier::external_body]
pub(crate) fn join_words(words: &Vec<String>) -> (r: String)
    ensures
        r@ == shell_joined(words.deep_view()),
{
    shell_words::join(words)
}

/// The command line an agent runs: the joined words inside a login
/// shell, after a change of directory when one is given.
pub open spec fn spec_wrapped(wd: Option<Seq<char>>, joined: Seq<char>) -> Seq<char> {
    match wd {
        Some(d) => "bash -lc 'cd "@ + d + " && "@ + joined + "'"@,
        None => "bash -lc '"@ + joined + "'"@,
    }
}

/// Builds the wrapped command line for one agent.
pub fn wrapped_command(wd: &Option<String>, joined: &str) -> (r: String)
    ensures
        r@ == spec_wrapped(wd.deep_view(), joined@),
{
    match wd {
        Some(d) => {
            let mut r = String::from_str("bash -lc 'cd ");
            r.append(d.as_str());
            r.append(" && ");
            r.append(joined);
            r.append("'");
            r
        },
        None => {
            let mut r = String::from_str("bash -lc '");
            r.append(joined);
            r.append("'");
            r
        },
    }
}

} // verus!
