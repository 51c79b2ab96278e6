//! A build session: its uniquely named directory, the handshake files in it,
//! the command line of the build tool, and the loading of its result.

use vstd::prelude::*;

use crate::log_router::{spec_writes_file, strings_view};
use crate::paths::{join, join_path, lemma_join_ends_with, lemma_join_keeps_apart};
use crate::process::{
    copy_pairs, opt_view, pairs_view, BuildPlatform, BuildRequest, SessionError,
};
use crate::session_id::{
    hyphenated, lemma_hyphenated_injective, lemma_hyphenated_shape, session_id_text,
};
use crate::supervisor::{
    conclude_state, load_error, next, step, SessionAction, SessionEvent, SessionState,
};

verus! {

/// The session root: `<project>/<base>/<hyphenated id>`.
pub open spec fn session_root(project: Seq<char>, base: Seq<char>, id: u128) -> Seq<char> {
    join_path(join_path(project, base), hyphenated(id))
}

/// The settings file that the build tool reads at startup.
pub open spec fn settings_path(root: Seq<char>) -> Seq<char> {
    join_path(root, "settings.json"@)
}

/// The completion report that the build tool writes.
pub open spec fn report_path(root: Seq<char>) -> Seq<char> {
    join_path(root, "output.json"@)
}

pub open spec fn log_file_path(root: Seq<char>, log_directory: Seq<char>) -> Seq<char> {
    join_path(join_path(root, log_directory), "android_build.log"@)
}

/// The settings handed to the build tool.
pub struct BuildSettings {
    pub platform: BuildPlatform,
    pub secret: String,
    pub destination: String,
}

/// The build tool's result. As read from the completion report,
/// `build_path` is relative to the session root and the other fields are
/// empty; once loaded, it is resolved and the log file and status code are
/// attached.
pub struct UnityOutput {
    pub build_path: String,
    pub platform: BuildPlatform,
    pub log_path: Option<String>,
    pub exit_code: Option<i32>,
}

/// How the build tool is started: the program, its arguments and the
/// variables added to its environment. All three standard streams are piped.
pub struct Invocation {
    pub program: String,
    pub args: Vec<String>,
    pub envs: Vec<(String, String)>,
}

/// The arguments of the build tool for one session.
pub open spec fn invocation_args(workspace: Seq<char>, entry: Seq<char>, root: Seq<char>) -> Seq<
    Seq<char>,
> {
    seq![
        "-batchmode"@,
        "-quit"@,
        "-projectPath"@,
        workspace,
        "-executeMethod"@,
        entry,
        "-buildTarget"@,
        "android"@,
        "-logFile"@,
        "-"@,
        "-sessionroot"@,
        root,
    ]
}

pub struct BuildSession {
    pub request: BuildRequest,
    pub root: String,
    pub log_directory: String,
    pub log_file: String,
    pub settings_file: String,
    pub report_file: String,
    pub state: SessionState,
}

impl BuildSession {
    /// The paths of the session are those of its request's identifier.
    pub open spec fn wf(&self) -> bool {
        let root = session_root(
            self.request.project_path@,
            self.request.telebuild_root@,
            self.request.uuid,
        );
        &&& self.root@ == root
        &&& self.log_directory@ == join_path(root, self.request.log_directory@)
        &&& self.log_file@ == log_file_path(root, self.request.log_directory@)
        &&& self.settings_file@ == settings_path(root)
        &&& self.report_file@ == report_path(root)
    }

    /// The same session, but for its state.
    pub open spec fn same_but_state(&self, other: &BuildSession) -> bool {
        &&& self.request == other.request
        &&& self.root == other.root
        &&& self.log_directory == other.log_directory
        &&& self.log_file == other.log_file
        &&& self.settings_file == other.settings_file
        &&& self.report_file == other.report_file
    }

    /// The settings that the build tool is to read.
    pub fn create_build_settings(&self) -> (r: BuildSettings)
        ensures
            r.platform == self.request.platform,
            r.secret@ == self.request.keystore_password@,
            r.destination@ == self.request.destination@,
    {
        BuildSettings {
            platform: self.request.platform,
            secret: self.request.keystore_password.clone(),
            destination: self.request.destination.clone(),
        }
    }

    /// The command line that starts the build tool for this session.
    pub fn build(&self) -> (r: Invocation)
        ensures
            r.program@ == self.request.bin_path@,
            strings_view(r.args@) == invocation_args(
                self.request.workspace_path@,
                self.request.build_entry@,
                self.root@,
            ),
            pairs_view(r.envs@) == pairs_view(self.request.envs@),
    {
        let mut args: Vec<String> = Vec::new();
        args.push(String::from_str("-batchmode"));
        args.push(String::from_str("-quit"));
        args.push(String::from_str("-projectPath"));
        args.push(self.request.workspace_path.clone());
        args.push(String::from_str("-executeMethod"));
        args.push(self.request.build_entry.clone());
        args.push(String::from_str("-buildTarget"));
        args.push(String::from_str("android"));
        args.push(String::from_str("-logFile"));
        args.push(String::from_str("-"));
        args.push(String::from_str("-sessionroot"));
        args.push(self.root.clone());
        assert(strings_view(args@) =~= invocation_args(
            self.request.workspace_path@,
            self.request.build_entry@,
            self.root@,
        ));
        Invocation {
            program: self.request.bin_path.clone(),
            args,
            envs: copy_pairs(&self.request.envs),
        }
    }

    /// The log file of the session, when its policy writes one.
    pub fn log_path(&self) -> (r: Option<String>)
        ensures
            opt_view(r) == (if spec_writes_file(self.request.log_behavior) {
                Some(self.log_file@)
            } else {
                None
            }),
    {
        if self.request.log_behavior.writes_file() {
            Some(self.log_file.clone())
        } else {
            None
        }
    }

    /// The result of a session whose child exited with `exit_code`, from the
    /// completion report read from the session root (`None` when it was
    /// missing or malformed). The reported path is resolved against the
    /// session root.
    pub fn load_output(&self, report: Option<UnityOutput>, exit_code: Option<i32>) -> (r: Result<
        UnityOutput,
        SessionError,
    >)
        ensures
            match load_error(report is Some, exit_code) {
                Some(e) => r == Err::<UnityOutput, SessionError>(e),
                None => r is Ok && resolved(r->Ok_0, report->Some_0, *self, exit_code),
            },
    {
        match report {
            None => Err(SessionError::OutputLoad),
            Some(out) => {
                match exit_code {
                    Some(0i32) => {
                        let build_path = join(self.root.as_str(), out.build_path.as_str());
                        Ok(
                            UnityOutput {
                                build_path,
                                platform: out.platform,
                                log_path: self.log_path(),
                                exit_code,
                            },
                        )
                    },
                    _ => Err(SessionError::ExitFailure(exit_code)),
                }
            },
        }
    }

    /// Moves the session on `event` and says what the runner is to do.
    pub fn advance(&mut self, event: SessionEvent) -> (r: SessionAction)
        ensures
            (final(self).state, r) == step(old(self).state, event),
            final(self).same_but_state(old(self)),
    {
        let (s, a) = next(self.state, event);
        self.state = s;
        a
    }

    /// Ends a completed session with the completion report that was read, or
    /// `None` when it was missing or malformed.
    pub fn conclude(&mut self, report: Option<UnityOutput>) -> (r: Result<UnityOutput, SessionError>)
        requires
            old(self).state is Completed,
        ensures
            final(self).state == conclude_state(old(self).state, report is Some),
            final(self).same_but_state(old(self)),
            match load_error(report is Some, old(self).state->Completed_0) {
                Some(e) => r == Err::<UnityOutput, SessionError>(e),
                None => r is Ok && resolved(
                    r->Ok_0,
                    report->Some_0,
                    *old(self),
                    old(self).state->Completed_0,
                ),
            },
    {
        let code = match self.state {
            SessionState::Completed(c) => c,
            _ => None,
        };
        let r = self.load_output(report, code);
        self.state = match &r {
            Ok(_) => SessionState::OutputLoaded,
            Err(e) => SessionState::Failed(*e),
        };
        r
    }
}

/// `out` is `report` as loaded by `session` after an exit with `exit_code`.
pub open spec fn resolved(
    out: UnityOutput,
    report: UnityOutput,
    session: BuildSession,
    exit_code: Option<i32>,
) -> bool {
    &&& out.build_path@ == join_path(session.root@, report.build_path@)
    &&& out.platform == report.platform
    &&& opt_view(out.log_path) == (if spec_writes_file(session.request.log_behavior) {
        Some(session.log_file@)
    } else {
        None
    })
    &&& out.exit_code == exit_code
}


/// A root made for an identifier ends with the identifier's hyphenated text,
/// and so neither is empty nor ends with `/`.
proof fn lemma_root_shape(project: Seq<char>, base: Seq<char>, id: u128)
    ensures
        session_root(project, base, id).len() >= 36,
        session_root(project, base, id).subrange(
            session_root(project, base, id).len() - 36,
            session_root(project, base, id).len() as int,
        ) == hyphenated(id),
        session_root(project, base, id).last() != '/',
{
    let h = hyphenated(id);
    let root = session_root(project, base, id);
    lemma_hyphenated_shape(id);
    lemma_join_ends_with(join_path(project, base), h);
    assert(root.last() == root.subrange(root.len() - 36, root.len() as int)[35]);
}

/// Sessions with different identifiers have different roots, settings files
/// and completion reports, whatever their projects and root bases: two
/// sessions never write to the same handshake file.
pub proof fn lemma_distinct_ids_distinct_files(
    project1: Seq<char>,
    base1: Seq<char>,
    id1: u128,
    project2: Seq<char>,
    base2: Seq<char>,
    id2: u128,
)
    requires
        id1 != id2,
    ensures
        session_root(project1, base1, id1) != session_root(project2, base2, id2),
        settings_path(session_root(project1, base1, id1)) != settings_path(
            session_root(project2, base2, id2),
        ),
        report_path(session_root(project1, base1, id1)) != report_path(
            session_root(project2, base2, id2),
        ),
{
    let r1 = session_root(project1, base1, id1);
    let r2 = session_root(project2, base2, id2);
    lemma_root_shape(project1, base1, id1);
    lemma_root_shape(project2, base2, id2);
    if r1 == r2 {
        lemma_hyphenated_injective(id1, id2);
    }
    reveal_strlit("settings.json");
    reveal_strlit("output.json");
    lemma_join_keeps_apart(r1, r2, "settings.json"@);
    lemma_join_keeps_apart(r1, r2, "output.json"@);
}

/// The identifiers that have been given to sessions, each at most once.
pub struct SessionLedger {
    issued: Vec<u128>,
}

impl SessionLedger {
    pub closed spec fn issued(&self) -> Seq<u128> {
        self.issued@
    }

    pub closed spec fn wf(&self) -> bool {
        self.issued@.no_duplicates()
    }

    /// A ledger with no identifier issued.
    pub fn new() -> (r: Self)
        ensures
            r.wf(),
            r.issued() == Seq::<u128>::empty(),
    {
        SessionLedger { issued: Vec::new() }
    }

    /// Whether `id` was given to a session already.
    pub fn is_issued(&self, id: u128) -> (r: bool)
        ensures
            r == self.issued().contains(id),
    {
        let mut i: usize = 0;
        while i < self.issued.len()
            invariant
                i <= self.issued.len(),
                forall|j: int| 0 <= j < i ==> self.issued@[j] != id,
            decreases self.issued.len() - i,
        {
            if self.issued[i] == id {
                return true;
            }
            i = i + 1;
        }
        false
    }

    /// Opens a session for `request` in a directory of its own, unless its
    /// identifier was given to an earlier session: a session root is never
    /// reused, so a retry needs a new builder.
    pub fn open(&mut self, request: BuildRequest) -> (r: Result<BuildSession, SessionError>)
        requires
            old(self).wf(),
        ensures
            final(self).wf(),
            old(self).issued().contains(request.uuid) ==> r == Err::<BuildSession, SessionError>(
                SessionError::RootReused,
            ) && final(self).issued() == old(self).issued(),
            !old(self).issued().contains(request.uuid) ==> r is Ok && final(self).issued() == old(
                self,
            ).issued().push(request.uuid) && r->Ok_0.request == request && r->Ok_0.wf()
                && r->Ok_0.state == SessionState::Created,
    {
        if self.is_issued(request.uuid) {
            return Err(SessionError::RootReused);
        }
        let id_text = session_id_text(request.uuid);
        let base = join(request.project_path.as_str(), request.telebuild_root.as_str());
        let root = join(base.as_str(), id_text.as_str());
        let log_directory = join(root.as_str(), request.log_directory.as_str());
        let log_file = join(log_directory.as_str(), "android_build.log");
        let settings_file = join(root.as_str(), "settings.json");
        let report_file = join(root.as_str(), "output.json");
        let ghost before = self.issued@;
        self.issued.push(request.uuid);
        proof {
            assert forall|a: int, b: int|
                0 <= a < b < self.issued@.len() implies self.issued@[a] != self.issued@[b] by {
                if b == before.len() {
                    assert(before[a] == self.issued@[a]);
                }
            }
        }
        Ok(
            BuildSession {
                request,
                root,
                log_directory,
                log_file,
                settings_file,
                report_file,
                state: SessionState::Created,
            },
        )
    }

    /// Every two sessions opened through one ledger have different roots,
    /// settings files and completion reports, whatever projects they build.
    pub proof fn lemma_sessions_apart(
        &self,
        i: int,
        j: int,
        project1: Seq<char>,
        base1: Seq<char>,
        project2: Seq<char>,
        base2: Seq<char>,
    )
        requires
            self.wf(),
            0 <= i < self.issued().len(),
            0 <= j < self.issued().len(),
            i != j,
        ensures
            session_root(project1, base1, self.issued()[i]) != session_root(
                project2,
                base2,
                self.issued()[j],
            ),
            settings_path(session_root(project1, base1, self.issued()[i])) != settings_path(
                session_root(project2, base2, self.issued()[j]),
            ),
            report_path(session_root(project1, base1, self.issued()[i])) != report_path(
                session_root(project2, base2, self.issued()[j]),
            ),
    {
        lemma_distinct_ids_distinct_files(
            project1,
            base1,
            self.issued()[i],
            project2,
            base2,
            self.issued()[j],
        );
    }
}

} // verus!
