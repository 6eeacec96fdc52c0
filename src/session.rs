//! The order of the engine invocations, as a state machine.
//!
//! The caller performs each [`Action`] and hands back what came of it as an
//! [`Event`]; the session decides what to do next. The first failure ends the
//! session.

use vstd::prelude::*;
use crate::command::{
    build_args,
    build_command_args,
    engine,
    engine_program,
    run_args,
    run_command_args,
    views,
    Config,
};
use crate::text::{trim, trimmed};

verus! {

/// How far a session has come.
pub enum Stage {
    /// Waiting to learn whether the engine is on the search path.
    LookingUpEngine,
    /// Waiting for the build to end.
    Building,
    /// The build gave `image`; waiting for the host credentials path to be
    /// resolved.
    Resolving { image: String },
    /// Waiting for the run to end.
    Running,
    /// Nothing more is done.
    Finished,
}

/// What came of the last action.
pub enum Event {
    /// The engine program was, or was not, found on the search path.
    EngineLookedUp { found: bool },
    /// The build ended with exit `code` (`None` where a signal ended it);
    /// each output stream is its text, or why it could not be decoded.
    BuildExited { code: Option<i32>, stdout: Result<String, String>, stderr: Result<String, String> },
    /// An engine process could not be started or waited for.
    LaunchFailed { message: String },
    /// The host credentials path, made absolute with links resolved, or why
    /// it could not be.
    CredentialsResolved { path: Result<String, String> },
    /// The run ended with exit `code` (`None` where a signal ended it).
    RunExited { code: Option<i32> },
}

/// What the caller is to do next.
pub enum Action {
    /// Look `program` up on the search path.
    LookUpEngine { program: String },
    /// Run `program` with `args`, capturing both output streams.
    Capture { program: String, args: Vec<String> },
    /// Resolve `path` to an absolute path with links resolved.
    Resolve { path: String },
    /// Run `program` with `args`, its output going straight to the caller's
    /// own streams.
    Stream { program: String, args: Vec<String> },
    /// Stop at once with a fatal error.
    Abort { message: String },
    /// Print each of `errors` on the error stream and exit with `code`.
    Exit { code: i32, errors: Vec<String> },
}

/// One invocation of the tool. Only [`Session::start`] makes one, so every
/// session begins by looking the engine up.
pub struct Session {
    config: Config,
    stage: Stage,
}

/// `act` is an exit with `code` that reports `errors`.
pub open spec fn exit_with(act: Action, code: i32, errors: Seq<Seq<char>>) -> bool {
    act matches Action::Exit { code: c, errors: e } && c == code && views(e@) == errors
}

/// The events that each stage waits for.
pub open spec fn accepts_event(stage: Stage, ev: Event) -> bool {
    match stage {
        Stage::LookingUpEngine => ev is EngineLookedUp,
        Stage::Building => ev is BuildExited || ev is LaunchFailed,
        Stage::Resolving { .. } => ev is CredentialsResolved,
        Stage::Running => ev is RunExited || ev is LaunchFailed,
        Stage::Finished => false,
    }
}

/// A session under `cfg` in stage `before` that sees `ev` moves to stage
/// `after` and asks for `act`.
pub open spec fn transition(cfg: Config, before: Stage, ev: Event, after: Stage, act: Action) -> bool {
    match before {
        Stage::LookingUpEngine => match ev {
            Event::EngineLookedUp { found } => if found {
                &&& after is Building
                &&& act matches Action::Capture { program, args }
                &&& program@ == engine()
                &&& views(args@) == build_args(cfg.context@)
            } else {
                &&& after is Finished
                &&& act matches Action::Abort { message }
                &&& message@ == "docker not found"@
            },
            _ => false,
        },
        Stage::Building => match ev {
            Event::BuildExited { code, stdout, stderr } => if code == Some(0i32) {
                match stdout {
                    Ok(out) => {
                        &&& after matches Stage::Resolving { image }
                        &&& image@ == trimmed(out@)
                        &&& act matches Action::Resolve { path }
                        &&& path@ == cfg.adc@
                    },
                    Err(m) => after is Finished && exit_with(act, 1, seq![m@]),
                }
            } else {
                &&& after is Finished
                &&& match stderr {
                    Ok(text) => exit_with(act, 1, seq![text@, "docker build failed"@]),
                    Err(m) => exit_with(act, 1, seq![m@]),
                }
            },
            Event::LaunchFailed { message } => after is Finished && exit_with(
                act,
                1,
                seq![message@],
            ),
            _ => false,
        },
        Stage::Resolving { image } => match ev {
            Event::CredentialsResolved { path } => match path {
                Ok(host) => {
                    &&& after is Running
                    &&& act matches Action::Stream { program, args }
                    &&& program@ == engine()
                    &&& views(args@) == run_args(
                        cfg.adc_docker@,
                        cfg.project@,
                        host@,
                        image@,
                        views(cfg.args@),
                    )
                },
                Err(m) => after is Finished && exit_with(act, 1, seq![m@]),
            },
            _ => false,
        },
        Stage::Running => match ev {
            Event::RunExited { code } => {
                &&& after is Finished
                &&& if code == Some(0i32) {
                    exit_with(act, 0, seq![])
                } else {
                    exit_with(act, 1, seq!["docker run failed"@])
                }
            },
            Event::LaunchFailed { message } => after is Finished && exit_with(
                act,
                1,
                seq![message@],
            ),
            _ => false,
        },
        Stage::Finished => false,
    }
}

/// An exit with status 1 that reports `message`.
fn fail_with(message: String) -> (r: Action)
    ensures
        exit_with(r, 1, seq![message@]),
{
    let mut errors: Vec<String> = Vec::new();
    errors.push(message);
    assert(views(errors@) =~= seq![message@]);
    Action::Exit { code: 1, errors }
}

impl Session {
    /// The configuration the session was started with.
    pub closed spec fn current_config(&self) -> Config {
        self.config
    }

    /// How far the session has come.
    pub closed spec fn current_stage(&self) -> Stage {
        self.stage
    }

    /// The configuration the session was started with.
    pub fn config(&self) -> (r: &Config)
        ensures
            *r == self.current_config(),
    {
        &self.config
    }

    /// How far the session has come.
    pub fn stage(&self) -> (r: &Stage)
        ensures
            *r == self.current_stage(),
    {
        &self.stage
    }

    /// Begins a session under `config`; its first action looks the engine
    /// up, before anything is built or run.
    pub fn start(config: Config) -> (r: (Session, Action))
        ensures
            r.0.current_config() == config,
            r.0.current_stage() is LookingUpEngine,
            r.1 matches Action::LookUpEngine { program } && program@ == engine(),
    {
        (Session { config, stage: Stage::LookingUpEngine }, Action::LookUpEngine { program: engine_program() })
    }

    /// Whether the session waits for `event` now.
    pub fn accepts(&self, event: &Event) -> (r: bool)
        ensures
            r == accepts_event(self.current_stage(), *event),
    {
        match (&self.stage, event) {
            (Stage::LookingUpEngine, Event::EngineLookedUp { .. }) => true,
            (Stage::Building, Event::BuildExited { .. }) => true,
            (Stage::Building, Event::LaunchFailed { .. }) => true,
            (Stage::Resolving { .. }, Event::CredentialsResolved { .. }) => true,
            (Stage::Running, Event::RunExited { .. }) => true,
            (Stage::Running, Event::LaunchFailed { .. }) => true,
            _ => false,
        }
    }

    /// Whether the session has ended.
    pub fn is_finished(&self) -> (r: bool)
        ensures
            r == (self.current_stage() is Finished),
    {
        matches!(self.stage, Stage::Finished)
    }

    /// Takes in what came of the last action and returns the next one.
    pub fn step(&mut self, event: Event) -> (r: Action)
        requires
            accepts_event(old(self).current_stage(), event),
        ensures
            final(self).current_config() == old(self).current_config(),
            transition(
                old(self).current_config(),
                old(self).current_stage(),
                event,
                final(self).current_stage(),
                r,
            ),
    {
        match event {
            Event::EngineLookedUp { found } => {
                if found {
                    self.stage = Stage::Building;
                    Action::Capture {
                        program: engine_program(),
                        args: build_command_args(&self.config.context),
                    }
                } else {
                    self.stage = Stage::Finished;
                    Action::Abort { message: String::from_str("docker not found") }
                }
            },
            Event::BuildExited { code, stdout, stderr } => {
                if code == Some(0i32) {
                    match stdout {
                        Ok(out) => {
                            self.stage = Stage::Resolving { image: trim(out.as_str()) };
                            Action::Resolve { path: self.config.adc.clone() }
                        },
                        Err(m) => {
                            self.stage = Stage::Finished;
                            fail_with(m)
                        },
                    }
                } else {
                    self.stage = Stage::Finished;
                    match stderr {
                        Ok(text) => {
                            let mut errors: Vec<String> = Vec::new();
                            errors.push(text);
                            errors.push(String::from_str("docker build failed"));
                            assert(views(errors@) =~= seq![text@, "docker build failed"@]);
                            Action::Exit { code: 1, errors }
                        },
                        Err(m) => fail_with(m),
                    }
                }
            },
            Event::LaunchFailed { message } => {
                self.stage = Stage::Finished;
                fail_with(message)
            },
            Event::CredentialsResolved { path } => {
                let image = match &self.stage {
                    Stage::Resolving { image } => image.clone(),
                    _ => String::new(),
                };
                match path {
                    Ok(host) => {
                        let args = run_command_args(&self.config, &host, &image);
                        self.stage = Stage::Running;
                        Action::Stream { program: engine_program(), args }
                    },
                    Err(m) => {
                        self.stage = Stage::Finished;
                        fail_with(m)
                    },
                }
            },
            Event::RunExited { code } => {
                self.stage = Stage::Finished;
                if code == Some(0i32) {
                    let errors: Vec<String> = Vec::new();
                    assert(views(errors@) =~= seq![]);
                    Action::Exit { code: 0, errors }
                } else {
                    fail_with(String::from_str("docker run failed"))
                }
            },
        }
    }
}

/// When the engine is not on the search path the session aborts, and it then
/// waits for nothing more: no build and no run is asked for.
pub proof fn lemma_missing_engine_aborts(cfg: Config, after: Stage, act: Action)
    requires
        transition(cfg, Stage::LookingUpEngine, Event::EngineLookedUp { found: false }, after, act),
    ensures
        act is Abort,
        after is Finished,
        forall|ev: Event| !accepts_event(after, ev),
{
}

/// When the build exits with anything but 0 the session exits with status 1,
/// and it then waits for nothing more: the run is never asked for.
pub proof fn lemma_failed_build_never_runs(
    cfg: Config,
    code: Option<i32>,
    stdout: Result<String, String>,
    stderr: Result<String, String>,
    after: Stage,
    act: Action,
)
    requires
        code != Some(0i32),
        transition(cfg, Stage::Building, Event::BuildExited { code, stdout, stderr }, after, act),
    ensures
        act matches Action::Exit { code: c, .. } && c == 1,
        after is Finished,
        forall|ev: Event| !accepts_event(after, ev),
{
}

/// When the build exits with 0, the image that the run is asked for is the
/// build's standard output without white space at either end.
pub proof fn lemma_run_uses_trimmed_build_output(
    cfg: Config,
    out: String,
    stderr: Result<String, String>,
    mid: Stage,
    first: Action,
    ev: Event,
    after: Stage,
    act: Action,
)
    requires
        transition(
            cfg,
            Stage::Building,
            Event::BuildExited { code: Some(0i32), stdout: Ok(out), stderr },
            mid,
            first,
        ),
        accepts_event(mid, ev),
        transition(cfg, mid, ev, after, act),
        act is Stream,
    ensures
        act matches Action::Stream { args, .. } && args@.len() > 8 && args@[8]@ == trimmed(out@),
{
    if let Action::Stream { args, .. } = act {
        assert(views(args@).len() == args@.len());
        assert(views(args@)[8] == args@[8]@);
    }
}

} // verus!
