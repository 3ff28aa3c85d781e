//! The steps of installing one tool. The installation decides; the caller
//! performs each action it asks for (a fetch, a run of the script in a
//! terminal) and hands back what came of it.
//!
//! The scripts come from the project's repository and run as they are,
//! with the user's privileges (and root, where the preamble asks for it): no
//! checksum or signature is checked, so whoever controls that repository
//! controls what runs.

use vstd::prelude::*;
use crate::remote::{script_path, script_path_of, FetchError, PREAMBLE_PATH};
use crate::text::slug_of;

verus! {

/// How a run of an install script ended, as the caller observed it.
#[derive(Clone, Copy, Debug, PartialEq, Eq, Structural)]
pub enum RunResult {
    /// The terminal process could not be started.
    SpawnFailed,
    /// The process exited with this status code.
    Exited(i32),
    /// The process was stopped by a signal and has no exit code.
    Killed,
}

/// Why an installation failed.
#[derive(Clone, Copy, Debug, PartialEq, Eq, Structural)]
pub enum InstallError {
    /// A script could not be fetched.
    Download(FetchError),
    /// The terminal process could not be started.
    SpawnFailed,
    /// The script exited with this nonzero status code.
    ScriptFailed(i32),
    /// The script was stopped by a signal before it exited.
    Killed,
}

/// Where an installation stands.
#[derive(Clone, Copy, Debug, PartialEq, Eq, Structural)]
pub enum Stage {
    /// Waiting for the root preamble.
    AwaitingPreamble,
    /// Waiting for the tool's own script.
    AwaitingScript,
    /// Waiting for the script run to end.
    Running,
    /// Done; the last action said how it ended.
    Finished,
}

/// One installation of one tool.
pub struct Installation {
    title: String,
    needs_root: bool,
    preamble: Option<String>,
    stage: Stage,
}

/// The content of an `Installation`.
pub struct InstallationView {
    pub title: Seq<char>,
    pub needs_root: bool,
    pub preamble: Option<Seq<char>>,
    pub stage: Stage,
}

impl View for Installation {
    type V = InstallationView;

    closed spec fn view(&self) -> InstallationView {
        InstallationView {
            title: self.title@,
            needs_root: self.needs_root,
            preamble: match self.preamble {
                Some(p) => Some(p@),
                None => None,
            },
            stage: self.stage,
        }
    }
}

/// What the caller is asked to do next.
#[derive(Debug)]
pub enum Action {
    /// Fetch the remote resource at this path and report it with `fetched`.
    Fetch(String),
    /// Run this text with `sh -c` in a terminal and report it with `ran`.
    Run(String),
    /// Nothing more; the installation ended so.
    Finish(Result<(), InstallError>),
}

/// The content of an `Action`.
pub enum ActionView {
    Fetch(Seq<char>),
    Run(Seq<char>),
    Finish(Result<(), InstallError>),
}

impl View for Action {
    type V = ActionView;

    open spec fn view(&self) -> ActionView {
        match self {
            Action::Fetch(p) => ActionView::Fetch(p@),
            Action::Run(s) => ActionView::Run(s@),
            Action::Finish(r) => ActionView::Finish(*r),
        }
    }
}

/// The content of a fetch result.
pub open spec fn fetched_view(r: Result<String, FetchError>) -> Result<Seq<char>, FetchError> {
    match r {
        Ok(s) => Ok(s@),
        Err(e) => Err(e),
    }
}

/// The text that is run: the preamble, if any, then the tool's script.
pub open spec fn blob_of(preamble: Option<Seq<char>>, script: Seq<char>) -> Seq<char> {
    match preamble {
        Some(p) => p + script,
        None => script,
    }
}

/// How an installation ends, given how its script run ended.
pub open spec fn outcome_of(r: RunResult) -> Result<(), InstallError> {
    match r {
        RunResult::SpawnFailed => Err(InstallError::SpawnFailed),
        RunResult::Exited(code) => if code == 0 {
            Ok(())
        } else {
            Err(InstallError::ScriptFailed(code))
        },
        RunResult::Killed => Err(InstallError::Killed),
    }
}

/// The first step of installing the tool `title`: the root preamble is
/// fetched first when it is needed, else the tool's own script.
pub open spec fn start_of(title: Seq<char>, needs_root: bool) -> (InstallationView, ActionView) {
    if needs_root {
        (
            InstallationView { title, needs_root, preamble: None, stage: Stage::AwaitingPreamble },
            ActionView::Fetch(PREAMBLE_PATH@),
        )
    } else {
        (
            InstallationView { title, needs_root, preamble: None, stage: Stage::AwaitingScript },
            ActionView::Fetch(script_path_of(title)),
        )
    }
}

/// The step after a fetch: a failed fetch ends the installation with
/// `Download`; the preamble is kept and the tool's script asked for; the
/// tool's script is run after the preamble, if any.
pub open spec fn after_fetch(s: InstallationView, fetched: Result<Seq<char>, FetchError>) -> (
    InstallationView,
    ActionView,
) {
    match fetched {
        Err(e) => (
            InstallationView { stage: Stage::Finished, ..s },
            ActionView::Finish(Err(InstallError::Download(e))),
        ),
        Ok(text) => if s.stage == Stage::AwaitingPreamble {
            (
                InstallationView { preamble: Some(text), stage: Stage::AwaitingScript, ..s },
                ActionView::Fetch(script_path_of(s.title)),
            )
        } else {
            (
                InstallationView { stage: Stage::Running, ..s },
                ActionView::Run(blob_of(s.preamble, text)),
            )
        },
    }
}

/// The step after the script run: the installation ends as the run did.
pub open spec fn after_run(s: InstallationView, r: RunResult) -> (InstallationView, ActionView) {
    (InstallationView { stage: Stage::Finished, ..s }, ActionView::Finish(outcome_of(r)))
}

/// The terminal emulator that install scripts run in, so that their output
/// and any password prompt are visible.
pub const TERMINAL: &'static str = "konsole";

/// The arguments that make the terminal run `script` with `sh -c`.
pub fn terminal_args(script: &str) -> (r: Vec<String>)
    ensures
        r@.len() == 4,
        r@[0]@ == "-e"@,
        r@[1]@ == "sh"@,
        r@[2]@ == "-c"@,
        r@[3]@ == script@,
{
    let mut args: Vec<String> = Vec::new();
    args.push(String::from_str("-e"));
    args.push(String::from_str("sh"));
    args.push(String::from_str("-c"));
    args.push(String::from_str(script));
    args
}

impl Installation {
    /// Begins installing the tool `title`.
    pub fn start(title: &str, needs_root: bool) -> (r: (Installation, Action))
        ensures
            (r.0@, r.1@) == start_of(title@, needs_root),
    {
        let title = String::from_str(title);
        if needs_root {
            let s = Installation { title, needs_root, preamble: None, stage: Stage::AwaitingPreamble };
            (s, Action::Fetch(String::from_str(PREAMBLE_PATH)))
        } else {
            let path = script_path(title.as_str());
            let s = Installation { title, needs_root, preamble: None, stage: Stage::AwaitingScript };
            (s, Action::Fetch(path))
        }
    }

    /// Where the installation stands.
    pub fn stage(&self) -> (r: Stage)
        ensures
            r == self@.stage,
    {
        self.stage
    }

    /// The title of the tool being installed.
    pub fn title(&self) -> (r: &str)
        ensures
            r@ == self@.title,
    {
        self.title.as_str()
    }

    /// Takes the result of the fetch that the last action asked for.
    pub fn fetched(&mut self, result: Result<String, FetchError>) -> (a: Action)
        requires
            old(self)@.stage == Stage::AwaitingPreamble || old(self)@.stage == Stage::AwaitingScript,
        ensures
            (final(self)@, a@) == after_fetch(old(self)@, fetched_view(result)),
    {
        match result {
            Err(e) => {
                self.stage = Stage::Finished;
                Action::Finish(Err(InstallError::Download(e)))
            },
            Ok(text) => {
                if self.stage == Stage::AwaitingPreamble {
                    self.preamble = Some(text);
                    self.stage = Stage::AwaitingScript;
                    Action::Fetch(script_path(self.title.as_str()))
                } else {
                    let mut blob = match &self.preamble {
                        Some(p) => p.clone(),
                        None => String::new(),
                    };
                    blob.append(text.as_str());
                    self.stage = Stage::Running;
                    Action::Run(blob)
                }
            },
        }
    }

    /// Takes how the script run that the last action asked for ended.
    pub fn ran(&mut self, result: RunResult) -> (a: Action)
        requires
            old(self)@.stage == Stage::Running,
        ensures
            (final(self)@, a@) == after_run(old(self)@, result),
    {
        self.stage = Stage::Finished;
        let outcome = match result {
            RunResult::SpawnFailed => Err(InstallError::SpawnFailed),
            RunResult::Exited(code) => if code == 0 {
                Ok(())
            } else {
                Err(InstallError::ScriptFailed(code))
            },
            RunResult::Killed => Err(InstallError::Killed),
        };
        Action::Finish(outcome)
    }
}

/// With root needed, the preamble is fetched first and the tool's script
/// second; the text run is the preamble followed by the tool's script, so no
/// byte of the script comes before any byte of the preamble.
pub proof fn lemma_preamble_runs_first(title: Seq<char>, preamble: Seq<char>, script: Seq<char>)
    ensures
        ({
            let (s1, a1) = start_of(title, true);
            let (s2, a2) = after_fetch(s1, Ok(preamble));
            let (s3, a3) = after_fetch(s2, Ok(script));
            &&& a1 == ActionView::Fetch(PREAMBLE_PATH@)
            &&& a2 == ActionView::Fetch(script_path_of(title))
            &&& a3 == ActionView::Run(preamble + script)
            &&& (preamble + script).take(preamble.len() as int) == preamble
            &&& (preamble + script).skip(preamble.len() as int) == script
        }),
{
    assert((preamble + script).take(preamble.len() as int) =~= preamble);
    assert((preamble + script).skip(preamble.len() as int) =~= script);
}

/// Without root, the one fetch is of the tool's own script, and the text
/// run is that script alone. The preamble's path is never asked for, unless
/// the tool's slug is `needs_root` itself, which names the preamble.
pub proof fn lemma_no_preamble_without_root(title: Seq<char>, script: Seq<char>)
    ensures
        ({
            let (s1, a1) = start_of(title, false);
            let (s2, a2) = after_fetch(s1, Ok(script));
            &&& a1 == ActionView::Fetch(script_path_of(title))
            &&& a2 == ActionView::Run(script)
        }),
        slug_of(title) != "needs_root"@ ==> script_path_of(title) != PREAMBLE_PATH@,
{
    if script_path_of(title) == PREAMBLE_PATH@ {
        let slug = slug_of(title);
        let dir = "install_scripts/"@;
        let ext = ".sh"@;
        reveal_strlit("install_scripts/");
        reveal_strlit(".sh");
        reveal_strlit("install_scripts/needs_root.sh");
        reveal_strlit("needs_root");
        let path = dir + slug + ext;
        assert(path.len() == 29);
        assert(slug.len() == 10);
        assert(slug =~= path.subrange(16, 26));
        assert(slug =~= "needs_root"@);
    }
}

} // verus!
