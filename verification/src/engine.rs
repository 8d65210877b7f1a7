//! The session engine: one read–evaluate–print cycle at a time.

use vstd::prelude::*;
use crate::error::LilreplError;
use crate::path::{DirPath, norm};
use crate::state::{LilState, LilEvaluator, LilPrompter};
use crate::table::{NArgs, Command, Commands, arity_ok};
use crate::tokens::{split_tokens, split_line};

verus! {

/// What the line source produced for one cycle. The caller reads the line;
/// the engine does everything after that.
pub enum LineEvent {
    /// One line of input.
    Line(String),
    /// The user interrupted the read; the session is over.
    Interrupted,
    /// The input is exhausted; the session is over.
    EndOfInput,
    /// The line source failed; the session is over.
    ReadFailure,
}

/// A session: the command table and prompter the host supplied at
/// construction, and the one interpreter state threaded through the cycles.
pub struct Lil<H, P> {
    commands: Commands<H>,
    prompter: P,
    state: LilState,
}

/// What one cycle does: how the state after `rep` and its outcome relate to
/// the state before, the command table, and the event the line source gave.
pub open spec fn cycle_spec<H: LilEvaluator>(
    table: Map<Seq<char>, Command<H>>,
    pre: LilState,
    post: LilState,
    event: LineEvent,
    r: Result<(), LilreplError>,
) -> bool {
    match event {
        LineEvent::Interrupted => r matches Err(LilreplError::Interrupted) && post == pre,
        LineEvent::EndOfInput => r matches Err(LilreplError::EndOfInput) && post == pre,
        LineEvent::ReadFailure => r matches Err(LilreplError::IoFailure) && post == pre,
        LineEvent::Line(line) => match split_tokens(line@) {
            None => r matches Err(LilreplError::TokenizationFailed) && quiet_cycle(pre, post),
            Some(toks) => if toks.len() == 0 {
                r is Ok && quiet_cycle(pre, post)
            } else if !table.contains_key(toks[0]) {
                &&& r matches Err(LilreplError::UnknownCommand(n)) && n@ == toks[0]
                &&& quiet_cycle(pre, post)
            } else if !arity_ok(table[toks[0]].nargs, (toks.len() - 1) as nat) {
                &&& r matches Err(LilreplError::ArityMismatch { expected, actual })
                    && table[toks[0]].nargs == NArgs::ExactCount(expected)
                    && actual == toks.len() - 1
                &&& quiet_cycle(pre, post)
            } else {
                evaluated_cycle(table[toks[0]], toks, pre, post, r)
            },
        },
    }
}

/// A cycle that never reached an evaluator: the working directory and root
/// are untouched, and the per-cycle fields are as freshly cleared.
pub open spec fn quiet_cycle(pre: LilState, post: LilState) -> bool {
    &&& post.root@ == pre.root@
    &&& post.cwd@ == pre.cwd@
    &&& post.args@.len() == 0
    &&& post.stdout@.len() == 0
    &&& post.stderr@.len() == 0
}

/// A cycle whose command was resolved and passed the arity check: its
/// evaluator was invoked on the cleared state carrying the line's tokens,
/// and the directory was reconciled afterwards. `mid` is the state exactly
/// as the evaluator left it; the buffers and arguments pass through to the
/// caller, the directory only if its normalized form stays below the root.
pub open spec fn evaluated_cycle<H: LilEvaluator>(
    cmd: Command<H>,
    toks: Seq<Seq<char>>,
    pre: LilState,
    post: LilState,
    r: Result<(), LilreplError>,
) -> bool {
    exists|given: LilState, mid: LilState, hr: Result<(), ()>|
        {
            &&& given.root@ == pre.root@
            &&& given.cwd@ == pre.cwd@
            &&& given.args.deep_view() == toks
            &&& given.stdout@.len() == 0
            &&& given.stderr@.len() == 0
            &&& #[trigger] cmd.evaluator.evaluated(given, mid, hr)
            &&& post.root@ == pre.root@
            &&& post.args@ == mid.args@
            &&& post.stdout@ == mid.stdout@
            &&& post.stderr@ == mid.stderr@
            &&& match hr {
                Ok(()) => {
                    if pre.root@.is_prefix_of(norm(mid.cwd@)) {
                        r is Ok && post.cwd@ == norm(mid.cwd@)
                    } else {
                        r matches Err(LilreplError::RootEscape) && post.cwd@ == pre.cwd@
                    }
                },
                Err(()) => r matches Err(LilreplError::HandlerError) && post.cwd@ == pre.cwd@,
            }
        }
}

impl<H: LilEvaluator, P: LilPrompter> Lil<H, P> {
    /// The interpreter state, as specifications see it.
    pub closed spec fn st(self) -> LilState {
        self.state
    }

    /// The command table's mapping, as specifications see it.
    pub closed spec fn table(self) -> Map<Seq<char>, Command<H>> {
        self.commands@
    }

    /// The prompter the session was built with.
    pub closed spec fn prompter_of(self) -> P {
        self.prompter
    }

    /// The table's own invariant.
    pub closed spec fn table_wf(self) -> bool {
        self.commands.wf()
    }

    /// The session invariant: a well-formed table, and the working
    /// directory confined to the root. It holds from construction on, at
    /// the start and end of every cycle.
    pub open spec fn wf(self) -> bool {
        &&& self.table_wf()
        &&& self.st().confined()
    }

    /// Builds a session from a prompter, a command table and the directory
    /// the session starts in, which becomes both the root and the working
    /// directory of a fresh state.
    pub fn new(prompter: P, commands: Commands<H>, start_dir: DirPath) -> (r: Lil<H, P>)
        requires
            commands.wf(),
        ensures
            r.wf(),
            r.table() == commands@,
            r.prompter_of() == prompter,
            r.st().root@ == norm(start_dir@),
            r.st().cwd@ == norm(start_dir@),
            r.st().args@.len() == 0,
            r.st().stdout@.len() == 0,
            r.st().stderr@.len() == 0,
    {
        let root = start_dir.normalize();
        let cwd = root.duplicate();
        proof {
            assert(root@.is_prefix_of(cwd@)) by {
                assert(root@ =~= cwd@.subrange(0, root@.len() as int));
            }
        }
        Lil {
            commands,
            prompter,
            state: LilState {
                root,
                cwd,
                args: Vec::new(),
                stdout: String::new(),
                stderr: String::new(),
            },
        }
    }

    /// The prompt to show before the next line is read.
    pub fn prompt(&self) -> (r: String)
        ensures
            self.prompter_of().prompted(self.st(), r@),
    {
        self.prompter.prompt(&self.state)
    }

    /// The interpreter state, for a caller that flushes the buffers or
    /// shows the directory.
    pub fn state(&self) -> (r: &LilState)
        ensures
            *r == self.st(),
    {
        &self.state
    }

    /// One read–evaluate–print cycle, given what the line source produced.
    ///
    /// A fatal event passes through untouched. A line is tokenized; an
    /// empty line commits at once. The first token is resolved and the
    /// argument count checked; then the evaluator runs on the cleared state
    /// carrying the tokens. The session root is restored whatever the
    /// evaluator did, the working directory is normalized, and a directory
    /// outside the root is reverted to where the cycle began: the
    /// confinement invariant holds again when `rep` returns, whatever the
    /// outcome.
    pub fn rep(&mut self, event: LineEvent) -> (r: Result<(), LilreplError>)
        requires
            old(self).wf(),
        ensures
            final(self).wf(),
            final(self).table() == old(self).table(),
            final(self).prompter_of() == old(self).prompter_of(),
            final(self).st().root@ == old(self).st().root@,
            cycle_spec(old(self).table(), old(self).st(), final(self).st(), event, r),
    {
        let line = match event {
            LineEvent::Line(l) => l,
            LineEvent::Interrupted => {
                return Err(LilreplError::Interrupted);
            },
            LineEvent::EndOfInput => {
                return Err(LilreplError::EndOfInput);
            },
            LineEvent::ReadFailure => {
                return Err(LilreplError::IoFailure);
            },
        };
        // The per-cycle fields start each cycle cleared: an evaluator only
        // ever sees the current line's values.
        self.state.args = Vec::new();
        self.state.stdout = String::new();
        self.state.stderr = String::new();
        let toks = match split_line(line.as_str()) {
            Some(t) => t,
            None => {
                return Err(LilreplError::TokenizationFailed);
            },
        };
        if toks.len() == 0 {
            return Ok(());
        }
        let command = match self.commands.resolve(&toks[0]) {
            Some(c) => c,
            None => {
                return Err(LilreplError::UnknownCommand(toks[0].clone()));
            },
        };
        let actual = toks.len() - 1;
        if let NArgs::ExactCount(expected) = command.nargs {
            if actual != expected {
                return Err(LilreplError::ArityMismatch { expected, actual });
            }
        }
        let saved_root = self.state.root.duplicate();
        let saved_cwd = self.state.cwd.duplicate();
        self.state.args = toks;
        let ghost given = self.state;
        let hr = command.evaluator.evaluate(&mut self.state);
        let ghost mid = self.state;
        // The root is fixed for the session, whatever the evaluator did.
        self.state.root = saved_root;
        if let Err(()) = hr {
            self.state.cwd = saved_cwd;
            return Err(LilreplError::HandlerError);
        }
        let normed = self.state.cwd.normalize();
        if normed.starts_with(&self.state.root) {
            self.state.cwd = normed;
            Ok(())
        } else {
            self.state.cwd = saved_cwd;
            Err(LilreplError::RootEscape)
        }
    }
}

} // verus!
