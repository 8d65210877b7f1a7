use lilrepl::{
    CdEvaluator, Command, Commands, DefaultPrompter, DirPath, Lil, LilEvaluator, LilState,
    LilreplError, LineEvent, NArgs, PwdEvaluator,
};

/// A test evaluator: writes a fixed text, escapes the root, fails, or does
/// nothing at all.
enum TestEval {
    Write(String),
    Escape(Vec<String>),
    Fail,
    Keep,
}

impl LilEvaluator for TestEval {
    fn evaluate(&self, st: &mut LilState) -> Result<(), ()> {
        match self {
            TestEval::Write(text) => {
                st.stdout.push_str(text);
                Ok(())
            }
            TestEval::Escape(parts) => {
                st.cwd = DirPath { parts: parts.clone() };
                Ok(())
            }
            TestEval::Fail => Err(()),
            TestEval::Keep => Ok(()),
        }
    }
}

fn strings(parts: &[&str]) -> Vec<String> {
    parts.iter().map(|p| p.to_string()).collect()
}

fn session(start: &[&str], bindings: Vec<(&str, TestEval, NArgs)>) -> Lil<TestEval, DefaultPrompter> {
    let mut commands = Commands::new();
    for (name, evaluator, nargs) in bindings {
        commands.register(name.to_string(), Command { evaluator, nargs });
    }
    Lil::new(DefaultPrompter, commands, DirPath { parts: strings(start) })
}

fn line(text: &str) -> LineEvent {
    LineEvent::Line(text.to_string())
}

#[test]
fn empty_line_commits() {
    let mut lil = session(&["home"], vec![]);
    let r = lil.rep(line(""));
    assert!(r.is_ok());
    assert_eq!(lil.state().stdout, "");
    assert_eq!(lil.state().stderr, "");
    assert!(lil.state().args.is_empty());
    assert_eq!(lil.state().cwd.parts, strings(&["home"]));
}

#[test]
fn blank_line_commits() {
    let mut lil = session(&["home"], vec![]);
    assert!(lil.rep(line("   \t ")).is_ok());
    assert_eq!(lil.state().stdout, "");
}

#[test]
fn comment_line_commits() {
    let mut lil = session(&["home"], vec![]);
    assert!(lil.rep(line("# just a comment")).is_ok());
    assert_eq!(lil.state().stdout, "");
}

#[test]
fn unknown_command_reported() {
    let mut lil = session(&["home"], vec![("m", TestEval::Keep, NArgs::AnyCount)]);
    let r = lil.rep(line("nope a b"));
    assert_eq!(r, Err(LilreplError::UnknownCommand("nope".to_string())));
    assert_eq!(lil.state().cwd.parts, strings(&["home"]));
    assert!(!LilreplError::UnknownCommand("nope".to_string()).is_fatal());
}

#[test]
fn arity_mismatch_rejected() {
    let mut lil = session(
        &["home"],
        vec![("m", TestEval::Write("ran".to_string()), NArgs::ExactCount(2))],
    );
    assert_eq!(
        lil.rep(line("m a")),
        Err(LilreplError::ArityMismatch { expected: 2, actual: 1 })
    );
    assert_eq!(lil.state().stdout, "");
    assert_eq!(
        lil.rep(line("m a b c")),
        Err(LilreplError::ArityMismatch { expected: 2, actual: 3 })
    );
    assert_eq!(lil.state().stdout, "");
}

#[test]
fn exact_arity_runs_handler() {
    let mut lil = session(
        &["home"],
        vec![("m", TestEval::Write("ran".to_string()), NArgs::ExactCount(2))],
    );
    assert!(lil.rep(line("m a b")).is_ok());
    assert_eq!(lil.state().stdout, "ran");
}

#[test]
fn any_count_accepts_all() {
    let mut lil = session(&["home"], vec![("m", TestEval::Write("x".to_string()), NArgs::AnyCount)]);
    assert!(lil.rep(line("m")).is_ok());
    assert!(lil.rep(line("m a b c d")).is_ok());
}

#[test]
fn root_escape_reverts_cwd() {
    let mut lil = session(
        &["home", "user"],
        vec![("esc", TestEval::Escape(strings(&["elsewhere"])), NArgs::AnyCount)],
    );
    let r = lil.rep(line("esc"));
    assert_eq!(r, Err(LilreplError::RootEscape));
    assert_eq!(lil.state().cwd.parts, strings(&["home", "user"]));
    assert!(!LilreplError::RootEscape.is_fatal());
}

#[test]
fn escape_to_parent_reverts_cwd() {
    let mut lil = session(
        &["home", "user"],
        vec![("esc", TestEval::Escape(strings(&["home"])), NArgs::AnyCount)],
    );
    assert_eq!(lil.rep(line("esc")), Err(LilreplError::RootEscape));
    assert_eq!(lil.state().cwd.parts, strings(&["home", "user"]));
}

#[test]
fn handler_failure_reverts_cwd() {
    let mut lil = session(&["home"], vec![("f", TestEval::Fail, NArgs::AnyCount)]);
    assert_eq!(lil.rep(line("f")), Err(LilreplError::HandlerError));
    assert_eq!(lil.state().cwd.parts, strings(&["home"]));
    assert!(!LilreplError::HandlerError.is_fatal());
}

#[test]
fn quoted_tokens_reach_args() {
    let mut lil = session(&["home"], vec![("cmd", TestEval::Keep, NArgs::AnyCount)]);
    assert!(lil.rep(line("cmd \"a b\" c")).is_ok());
    assert_eq!(lil.state().args, strings(&["cmd", "a b", "c"]));
}

#[test]
fn unterminated_quote_fails_tokenization() {
    let mut lil = session(&["home"], vec![("cmd", TestEval::Keep, NArgs::AnyCount)]);
    assert_eq!(lil.rep(line("cmd \"a")), Err(LilreplError::TokenizationFailed));
    assert!(!LilreplError::TokenizationFailed.is_fatal());
}

#[test]
fn fatal_events_touch_nothing() {
    let mut lil = session(&["home"], vec![("m", TestEval::Write("x".to_string()), NArgs::AnyCount)]);
    let r = lil.rep(LineEvent::Interrupted);
    assert_eq!(r, Err(LilreplError::Interrupted));
    assert!(LilreplError::Interrupted.is_fatal());
    assert_eq!(lil.state().stdout, "");
    assert_eq!(lil.state().cwd.parts, strings(&["home"]));

    let r = lil.rep(LineEvent::EndOfInput);
    assert_eq!(r, Err(LilreplError::EndOfInput));
    assert!(LilreplError::EndOfInput.is_fatal());
    assert_eq!(lil.state().stdout, "");

    let r = lil.rep(LineEvent::ReadFailure);
    assert_eq!(r, Err(LilreplError::IoFailure));
    assert!(LilreplError::IoFailure.is_fatal());
}

#[test]
fn reregistering_overwrites() {
    let mut lil = session(
        &["home"],
        vec![
            ("x", TestEval::Write("first".to_string()), NArgs::AnyCount),
            ("x", TestEval::Write("second".to_string()), NArgs::AnyCount),
        ],
    );
    assert!(lil.rep(line("x")).is_ok());
    assert_eq!(lil.state().stdout, "second");
}

#[test]
fn cwd_stays_confined_across_cycles() {
    let mut lil = session(
        &["home"],
        vec![
            ("esc", TestEval::Escape(strings(&["etc"])), NArgs::AnyCount),
            ("keep", TestEval::Keep, NArgs::AnyCount),
        ],
    );
    let _ = lil.rep(line("keep"));
    let _ = lil.rep(line("esc"));
    let _ = lil.rep(line("nonsense"));
    let _ = lil.rep(line("esc"));
    let st = lil.state();
    assert!(st.cwd.starts_with(&st.root));
    assert_eq!(st.cwd.parts, strings(&["home"]));
}

/// The two built-in evaluators behind one dispatching command type.
enum Builtin {
    Cd(CdEvaluator),
    Pwd(PwdEvaluator),
}

impl LilEvaluator for Builtin {
    fn evaluate(&self, st: &mut LilState) -> Result<(), ()> {
        match self {
            Builtin::Cd(e) => e.evaluate(st),
            Builtin::Pwd(e) => e.evaluate(st),
        }
    }
}

fn builtin_session(start: &[&str]) -> Lil<Builtin, DefaultPrompter> {
    let mut commands = Commands::new();
    commands.register(
        "cd".to_string(),
        Command { evaluator: Builtin::Cd(CdEvaluator), nargs: NArgs::ExactCount(1) },
    );
    commands.register(
        "pwd".to_string(),
        Command { evaluator: Builtin::Pwd(PwdEvaluator), nargs: NArgs::ExactCount(0) },
    );
    Lil::new(DefaultPrompter, commands, DirPath { parts: strings(start) })
}

#[test]
fn cd_descends_and_climbs() {
    let mut lil = builtin_session(&["home"]);
    assert!(lil.rep(line("cd sub")).is_ok());
    assert_eq!(lil.state().cwd.parts, strings(&["home", "sub"]));
    assert!(lil.rep(line("cd deeper")).is_ok());
    assert_eq!(lil.state().cwd.parts, strings(&["home", "sub", "deeper"]));
    assert!(lil.rep(line("cd ..")).is_ok());
    assert_eq!(lil.state().cwd.parts, strings(&["home", "sub"]));
    assert!(lil.rep(line("cd .")).is_ok());
    assert_eq!(lil.state().cwd.parts, strings(&["home", "sub"]));
}

#[test]
fn cd_above_root_is_rejected() {
    let mut lil = builtin_session(&["home"]);
    assert_eq!(lil.rep(line("cd ..")), Err(LilreplError::RootEscape));
    assert_eq!(lil.state().cwd.parts, strings(&["home"]));
}

#[test]
fn cd_arity_is_exactly_one() {
    let mut lil = builtin_session(&["home"]);
    assert_eq!(
        lil.rep(line("cd")),
        Err(LilreplError::ArityMismatch { expected: 1, actual: 0 })
    );
    assert_eq!(
        lil.rep(line("cd a b")),
        Err(LilreplError::ArityMismatch { expected: 1, actual: 2 })
    );
}

#[test]
fn pwd_prints_relative_path() {
    let mut lil = builtin_session(&["home"]);
    assert!(lil.rep(line("pwd")).is_ok());
    assert_eq!(lil.state().stdout, "/");
    assert!(lil.rep(line("cd sub")).is_ok());
    assert!(lil.rep(line("pwd")).is_ok());
    assert_eq!(lil.state().stdout, "/sub");
}

#[test]
fn prompt_follows_cwd() {
    let mut lil = builtin_session(&["home"]);
    assert_eq!(lil.prompt(), "/>");
    assert!(lil.rep(line("cd sub")).is_ok());
    assert_eq!(lil.prompt(), "/sub>");
}

#[test]
fn start_directory_is_normalized() {
    let lil = builtin_session(&["home", ".", "user", "..", "user"]);
    assert_eq!(lil.state().root.parts, strings(&["home", "user"]));
    assert_eq!(lil.state().cwd.parts, strings(&["home", "user"]));
}
