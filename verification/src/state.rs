//! The interpreter state threaded through one cycle, and the two
//! capabilities a host supplies: evaluators and prompters.

use vstd::prelude::*;
use vstd::string::StringExecFns;
use crate::path::{DirPath, is_normalized, rendered_below};

verus! {

/// The mutable record handed to the evaluator of the current cycle.
///
/// `root` is fixed for the session: the engine restores it after every
/// invocation. `args` holds the tokens of the current line, the command
/// name first. Whatever an evaluator writes to the buffers, the caller
/// flushes after the cycle.
pub struct LilState {
    /// Where the session started; the directory the session is confined to.
    pub root: DirPath,
    /// The current working directory.
    pub cwd: DirPath,
    /// The tokens of the current line; `args[0]` is the command name.
    pub args: Vec<String>,
    /// Text for the caller's output channel.
    pub stdout: String,
    /// Text for the caller's error channel.
    pub stderr: String,
}

impl LilState {
    /// Directory confinement: both paths normalized, and the working
    /// directory equal to the root or a descendant of it.
    pub open spec fn confined(self) -> bool {
        &&& is_normalized(self.root@)
        &&& is_normalized(self.cwd@)
        &&& self.root@.is_prefix_of(self.cwd@)
    }
}

/// An evaluator bound to a command: the host's side of one cycle.
///
/// `evaluated` is the implementor's own account of what one invocation does
/// to the state; `evaluate` must live up to it. The engine never relies on
/// an evaluator's good behaviour: the session root is restored and the
/// working directory re-confined after every invocation.
pub trait LilEvaluator: Sized {
    /// What one invocation may turn `pre` into, and with which outcome.
    /// An implementor that promises nothing may leave the default.
    open spec fn evaluated(&self, pre: LilState, post: LilState, r: Result<(), ()>) -> bool {
        true
    }

    /// Runs the command on the current state; `Err` fails the cycle.
    fn evaluate(&self, st: &mut LilState) -> (r: Result<(), ()>)
        ensures
            self.evaluated(*old(st), *final(st), r),
    ;
}

/// A side-effect-free function from interpreter state to the prompt shown
/// before a line is read.
pub trait LilPrompter: Sized {
    /// Which prompt text this prompter gives a state.
    /// An implementor that promises nothing may leave the default.
    open spec fn prompted(&self, st: LilState, text: Seq<char>) -> bool {
        true
    }

    /// Renders the prompt for the given state.
    fn prompt(&self, st: &LilState) -> (r: String)
        ensures
            self.prompted(*st, r@),
    ;
}

/// The prompt text `default_prompter` renders: the working directory shown
/// relative to the root, then a `>` delimiter.
pub open spec fn default_prompt(root: Seq<Seq<char>>, cwd: Seq<Seq<char>>) -> Seq<char> {
    rendered_below(root, cwd) + ">"@
}

/// Renders the working directory relative to the session's root, suffixed
/// with `>`: `/sub/dir>` inside the root, `/>` at the root itself.
pub fn default_prompter(st: &LilState) -> (r: String)
    ensures
        r@ == default_prompt(st.root@, st.cwd@),
{
    let mut text = st.cwd.render_below(&st.root);
    text.append(">");
    text
}

/// The prompter a session uses when the host wants nothing fancier:
/// `default_prompter` as a value.
pub struct DefaultPrompter;

impl LilPrompter for DefaultPrompter {
    open spec fn prompted(&self, st: LilState, text: Seq<char>) -> bool {
        text == default_prompt(st.root@, st.cwd@)
    }

    fn prompt(&self, st: &LilState) -> (r: String) {
        default_prompter(st)
    }
}

} // verus!
