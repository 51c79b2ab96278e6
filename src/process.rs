//! The build request: the staged builder that collects it, and the checked,
//! immutable request it yields.

use vstd::prelude::*;

use crate::session_id::{fresh_session_id, node_value};

verus! {

/// The target of a build; it selects where the artifact is put.
#[derive(Clone, Copy, Debug, PartialEq, Eq, Structural)]
pub enum BuildPlatform {
    AndroidDevelopment,
    AndroidRelease,
}

/// Where the console output of the build tool goes.
#[derive(Clone, Copy, Debug, PartialEq, Eq, Structural)]
pub enum LogBehaviour {
    Stdout,
    StdoutFile,
    File,
}

/// A field of the builder that a request cannot do without.
#[derive(Clone, Copy, Debug, PartialEq, Eq, Structural)]
pub enum MissingField {
    Bin,
    Platform,
    LogBehavior,
    ProjectPath,
    BuildEntry,
    KeystorePassword,
    TelebuildRoot,
    LogDirectory,
}

/// Why a session ended without a result.
#[derive(Clone, Copy, Debug, PartialEq, Eq, Structural)]
pub enum SessionError {
    /// A required field was not set; nothing was started.
    Configuration(MissingField),
    /// The operating system did not start the build tool.
    Spawn,
    /// An interrupt stopped the build tool.
    Cancelled,
    /// The build tool exited but its completion report is missing or malformed.
    OutputLoad,
    /// The session directory, the settings file or the log file could not be made.
    Io,
    /// The build tool reported its result but did not exit with status 0.
    ExitFailure(Option<i32>),
    /// The identifier of the request was already given to an earlier session.
    RootReused,
}

pub open spec fn opt_view(o: Option<String>) -> Option<Seq<char>> {
    match o {
        Some(s) => Some(s@),
        None => None,
    }
}

pub open spec fn pairs_view(v: Seq<(String, String)>) -> Seq<(Seq<char>, Seq<char>)> {
    v.map_values(|p: (String, String)| (p.0@, p.1@))
}

/// The environment variables after `key` is set to `val`: an earlier entry
/// for `key` goes, and the new one comes last.
pub open spec fn env_set(envs: Seq<(Seq<char>, Seq<char>)>, key: Seq<char>, val: Seq<char>) -> Seq<
    (Seq<char>, Seq<char>),
> {
    envs.filter(other_key(key)).push((key, val))
}

/// No two entries have the same key.
pub open spec fn keys_unique(envs: Seq<(Seq<char>, Seq<char>)>) -> bool {
    forall|a: int, b: int| 0 <= a < b < envs.len() ==> #[trigger] envs[a].0 != #[trigger] envs[b].0
}

proof fn lemma_filter_keys_unique(
    s: Seq<(Seq<char>, Seq<char>)>,
    pred: spec_fn((Seq<char>, Seq<char>)) -> bool,
)
    requires
        keys_unique(s),
    ensures
        keys_unique(s.filter(pred)),
        forall|i: int|
            0 <= i < s.filter(pred).len() ==> exists|j: int|
                0 <= j < s.len() && #[trigger] s.filter(pred)[i] == s[j],
    decreases s.len(),
{
    reveal(Seq::filter);
    if s.len() > 0 {
        let d = s.drop_last();
        assert(keys_unique(d)) by {
            assert forall|a: int, b: int| 0 <= a < b < d.len() implies #[trigger] d[a].0
                != #[trigger] d[b].0 by {
                assert(d[a] == s[a] && d[b] == s[b]);
            }
        }
        lemma_filter_keys_unique(d, pred);
        let f = d.filter(pred);
        assert forall|i: int| 0 <= i < f.len() implies exists|j: int|
            0 <= j < s.len() && #[trigger] f[i] == s[j] by {
            let j = choose|j: int| 0 <= j < d.len() && f[i] == d[j];
            assert(f[i] == s[j]);
        }
        if pred(s.last()) {
            let g = f.push(s.last());
            assert(s.filter(pred) == g);
            assert forall|a: int, b: int| 0 <= a < b < g.len() implies #[trigger] g[a].0
                != #[trigger] g[b].0 by {
                if b == f.len() {
                    let j = choose|j: int| 0 <= j < d.len() && f[a] == d[j];
                    assert(f[a] == s[j]);
                    assert(s[j].0 != s[s.len() - 1].0);
                } else {
                    assert(g[a] == f[a] && g[b] == f[b]);
                }
            }
            assert forall|i: int| 0 <= i < g.len() implies exists|j: int|
                0 <= j < s.len() && #[trigger] g[i] == s[j] by {
                if i == f.len() {
                    assert(g[i] == s[s.len() - 1]);
                } else {
                    assert(g[i] == f[i]);
                }
            }
        } else {
            assert(s.filter(pred) == f);
        }
    }
}

/// Setting a variable keeps the keys unique.
proof fn lemma_env_set_keys_unique(envs: Seq<(Seq<char>, Seq<char>)>, key: Seq<char>, val: Seq<char>)
    requires
        keys_unique(envs),
    ensures
        keys_unique(env_set(envs, key, val)),
{
    let f = envs.filter(other_key(key));
    lemma_filter_keys_unique(envs, other_key(key));
    let g = f.push((key, val));
    assert forall|a: int, b: int| 0 <= a < b < g.len() implies #[trigger] g[a].0
        != #[trigger] g[b].0 by {
        if b == f.len() {
            envs.lemma_filter_pred(other_key(key), a);
            assert(g[a] == f[a]);
        } else {
            assert(g[a] == f[a] && g[b] == f[b]);
        }
    }
}

/// Holds of the entries whose key is not `key`.
pub open spec fn other_key(key: Seq<char>) -> spec_fn((Seq<char>, Seq<char>)) -> bool {
    |e: (Seq<char>, Seq<char>)| e.0 != key
}

/// Copies a list of pairs of strings.
pub fn copy_pairs(v: &Vec<(String, String)>) -> (r: Vec<(String, String)>)
    ensures
        pairs_view(r@) == pairs_view(v@),
{
    let mut r: Vec<(String, String)> = Vec::new();
    let mut i: usize = 0;
    while i < v.len()
        invariant
            i <= v.len(),
            r@.len() == i,
            pairs_view(r@) =~= pairs_view(v@.subrange(0, i as int)),
        decreases v.len() - i,
    {
        let k = v[i].0.clone();
        let x = v[i].1.clone();
        r.push((k, x));
        proof {
            let sub = v@.subrange(0, i + 1);
            assert(r@[i as int] == (v@[i as int].0, v@[i as int].1));
            assert forall|j: int| 0 <= j <= i implies #[trigger] pairs_view(r@)[j] == pairs_view(
                sub,
            )[j] by {
                if j < i {
                    assert(pairs_view(r@)[j] == pairs_view(v@.subrange(0, i as int))[j]);
                }
            }
            assert(pairs_view(r@) =~= pairs_view(sub));
        }
        i = i + 1;
    }
    assert(v@.subrange(0, v.len() as int) =~= v@);
    r
}

/// The artifact destinations that the build tool is told to use, one per
/// platform.
pub struct BuildDestinations {
    pub development: String,
    pub release: String,
}

impl BuildDestinations {
    pub open spec fn spec_for(&self, platform: BuildPlatform) -> Seq<char> {
        match platform {
            BuildPlatform::AndroidDevelopment => self.development@,
            BuildPlatform::AndroidRelease => self.release@,
        }
    }

    /// The destination for `platform`.
    pub fn for_platform(&self, platform: BuildPlatform) -> (r: String)
        ensures
            r@ == self.spec_for(platform),
    {
        match platform {
            BuildPlatform::AndroidDevelopment => self.development.clone(),
            BuildPlatform::AndroidRelease => self.release.clone(),
        }
    }
}

/// A checked build request: every field the build needs is present.
pub struct BuildRequest {
    pub uuid: u128,
    pub bin_path: String,
    pub platform: BuildPlatform,
    pub log_behavior: LogBehaviour,
    pub project_path: String,
    /// The path the build tool opens: the separate engine workspace when one
    /// was given, the project path otherwise.
    pub workspace_path: String,
    pub build_entry: String,
    pub keystore_password: String,
    /// The directory, relative to the project, under which session roots are made.
    pub telebuild_root: String,
    /// The log directory, relative to the session root.
    pub log_directory: String,
    pub destination: String,
    pub envs: Vec<(String, String)>,
}

/// The node bytes 01:02:03:04:05:06 that this library's session
/// identifiers carry.
pub const SESSION_NODE: u128 = 0x0102_0304_0506;

/// A version 1 UUID of the RFC 4122 variant made for `SESSION_NODE`.
pub open spec fn is_session_id(id: u128) -> bool {
    &&& (id >> 76u128) & 0xfu128 == 1
    &&& (id >> 62u128) & 0x3u128 == 2
    &&& id & 0xffff_ffff_ffffu128 == SESSION_NODE
}

/// What a builder holds, as values.
pub struct ProcessView {
    pub platform: Option<BuildPlatform>,
    pub log_behavior: Option<LogBehaviour>,
    pub project_path: Option<Seq<char>>,
    pub bin_path: Option<Seq<char>>,
    pub uuid: u128,
    pub keystore_password: Option<Seq<char>>,
    pub project_path_unity: Option<Seq<char>>,
    pub script_build_entry: Option<Seq<char>>,
    pub telebuild_root: Option<Seq<char>>,
    pub log_directory: Option<Seq<char>>,
    pub envs: Seq<(Seq<char>, Seq<char>)>,
}

/// The first required field, in a fixed order, that `p` lacks.
pub open spec fn missing_field(p: ProcessView) -> Option<MissingField> {
    if p.bin_path is None {
        Some(MissingField::Bin)
    } else if p.platform is None {
        Some(MissingField::Platform)
    } else if p.log_behavior is None {
        Some(MissingField::LogBehavior)
    } else if p.project_path is None {
        Some(MissingField::ProjectPath)
    } else if p.script_build_entry is None {
        Some(MissingField::BuildEntry)
    } else if p.keystore_password is None {
        Some(MissingField::KeystorePassword)
    } else if p.telebuild_root is None {
        Some(MissingField::TelebuildRoot)
    } else if p.log_directory is None {
        Some(MissingField::LogDirectory)
    } else {
        None
    }
}

/// `r` is the request that a complete builder `p` yields with the
/// destinations `d`.
pub open spec fn request_of(r: BuildRequest, p: ProcessView, d: BuildDestinations) -> bool {
    &&& r.uuid == p.uuid
    &&& Some(r.bin_path@) == p.bin_path
    &&& Some(r.platform) == p.platform
    &&& Some(r.log_behavior) == p.log_behavior
    &&& Some(r.project_path@) == p.project_path
    &&& r.workspace_path@ == (match p.project_path_unity {
        Some(w) => w,
        None => p.project_path.unwrap(),
    })
    &&& Some(r.build_entry@) == p.script_build_entry
    &&& Some(r.keystore_password@) == p.keystore_password
    &&& Some(r.telebuild_root@) == p.telebuild_root
    &&& Some(r.log_directory@) == p.log_directory
    &&& r.destination@ == d.spec_for(p.platform.unwrap())
    &&& pairs_view(r.envs@) == p.envs
}

/// The builder of a build request. It is given a fresh identifier when made;
/// the setters fill in the rest.
pub struct UnityProcess {
    pub platform: Option<BuildPlatform>,
    pub log_behavior: Option<LogBehaviour>,
    pub project_path: Option<String>,
    pub bin_path: Option<String>,
    pub uuid: u128,
    keystore_password: Option<String>,
    project_path_unity: Option<String>,
    script_build_entry: Option<String>,
    telebuild_root: Option<String>,
    log_directory: Option<String>,
    envs: Vec<(String, String)>,
}

impl View for UnityProcess {
    type V = ProcessView;

    closed spec fn view(&self) -> ProcessView {
        ProcessView {
            platform: self.platform,
            log_behavior: self.log_behavior,
            project_path: opt_view(self.project_path),
            bin_path: opt_view(self.bin_path),
            uuid: self.uuid,
            keystore_password: opt_view(self.keystore_password),
            project_path_unity: opt_view(self.project_path_unity),
            script_build_entry: opt_view(self.script_build_entry),
            telebuild_root: opt_view(self.telebuild_root),
            log_directory: opt_view(self.log_directory),
            envs: pairs_view(self.envs@),
        }
    }
}


impl UnityProcess {
    /// An empty builder with a freshly drawn identifier.
    pub fn new() -> (r: Self)
        ensures
            r@.platform is None,
            r@.log_behavior is None,
            r@.project_path is None,
            r@.bin_path is None,
            r@.keystore_password is None,
            r@.project_path_unity is None,
            r@.script_build_entry is None,
            r@.telebuild_root is None,
            r@.log_directory is None,
            r@.envs == Seq::<(Seq<char>, Seq<char>)>::empty(),
            keys_unique(r@.envs),
            is_session_id(r@.uuid),
    {
        let node: [u8; 6] = [1, 2, 3, 4, 5, 6];
        assert(node_value(node@) == SESSION_NODE);
        let r = UnityProcess {
            platform: None,
            log_behavior: None,
            project_path: None,
            bin_path: None,
            uuid: fresh_session_id(&node),
            keystore_password: None,
            project_path_unity: None,
            script_build_entry: None,
            telebuild_root: None,
            log_directory: None,
            envs: Vec::new(),
        };
        assert(pairs_view(r.envs@) =~= Seq::<(Seq<char>, Seq<char>)>::empty());
        r
    }

    /// Sets the target platform.
    pub fn set_platform(&mut self, platform: BuildPlatform) -> (r: &mut Self)
        ensures
            r@ == (ProcessView { platform: Some(platform), ..old(self)@ }),
            *final(self) == *final(r),
    {
        self.platform = Some(platform);
        self
    }

    /// Sets where the console output of the build tool goes.
    pub fn set_log_behavior(&mut self, log_behavior: LogBehaviour) -> (r: &mut Self)
        ensures
            r@ == (ProcessView { log_behavior: Some(log_behavior), ..old(self)@ }),
            *final(self) == *final(r),
    {
        self.log_behavior = Some(log_behavior);
        self
    }

    /// Sets the path of the build tool's binary.
    pub fn set_bin(&mut self, path: String) -> (r: &mut Self)
        ensures
            r@ == (ProcessView { bin_path: Some(path@), ..old(self)@ }),
            *final(self) == *final(r),
    {
        self.bin_path = Some(path);
        self
    }

    /// Sets the project checkout that the session directory is nested in.
    pub fn set_project_path(&mut self, project_path: String) -> (r: &mut Self)
        ensures
            r@ == (ProcessView { project_path: Some(project_path@), ..old(self)@ }),
            *final(self) == *final(r),
    {
        self.project_path = Some(project_path);
        self
    }

    /// Sets a separate engine workspace for the build tool to open.
    pub fn set_project_path_unity(&mut self, project_path: String) -> (r: &mut Self)
        ensures
            r@ == (ProcessView { project_path_unity: Some(project_path@), ..old(self)@ }),
            *final(self) == *final(r),
    {
        self.project_path_unity = Some(project_path);
        self
    }

    /// Sets the entry point that the build tool executes.
    pub fn set_build_entry(&mut self, function_full_name: String) -> (r: &mut Self)
        ensures
            r@ == (ProcessView { script_build_entry: Some(function_full_name@), ..old(self)@ }),
            *final(self) == *final(r),
    {
        self.script_build_entry = Some(function_full_name);
        self
    }

    /// Sets the secret handed to the build tool (the signing password).
    pub fn set_keystore_password(&mut self, password: String) -> (r: &mut Self)
        ensures
            r@ == (ProcessView { keystore_password: Some(password@), ..old(self)@ }),
            *final(self) == *final(r),
    {
        self.keystore_password = Some(password);
        self
    }

    /// Sets the directory, relative to the project, under which session roots are made.
    pub fn set_telebuild_root(&mut self, telebuild_root: String) -> (r: &mut Self)
        ensures
            r@ == (ProcessView { telebuild_root: Some(telebuild_root@), ..old(self)@ }),
            *final(self) == *final(r),
    {
        self.telebuild_root = Some(telebuild_root);
        self
    }

    /// Sets the log directory, relative to the session root.
    pub fn set_log_directory(&mut self, log_directory: String) -> (r: &mut Self)
        ensures
            r@ == (ProcessView { log_directory: Some(log_directory@), ..old(self)@ }),
            *final(self) == *final(r),
    {
        self.log_directory = Some(log_directory);
        self
    }

    /// Sets an environment variable for the build tool; a later value for
    /// the same key replaces the earlier one.
    pub fn set_env(&mut self, key: String, val: String) -> (r: &mut Self)
        ensures
            r@ == (ProcessView { envs: env_set(old(self)@.envs, key@, val@), ..old(self)@ }),
            keys_unique(old(self)@.envs) ==> keys_unique(r@.envs),
            *final(self) == *final(r),
    {
        proof {
            if keys_unique(self@.envs) {
                lemma_env_set_keys_unique(self@.envs, key@, val@);
            }
        }
        let ghost keep = other_key(key@);
        let mut kept: Vec<(String, String)> = Vec::new();
        let mut i: usize = 0;
        while i < self.envs.len()
            invariant
                i <= self.envs.len(),
                self.envs == old(self).envs,
                keep == other_key(key@),
                pairs_view(kept@) == pairs_view(self.envs@.subrange(0, i as int)).filter(keep),
            decreases self.envs.len() - i,
        {
            let ghost before = kept@;
            let same = self.envs[i].0 == key;
            if !same {
                let k = self.envs[i].0.clone();
                let x = self.envs[i].1.clone();
                kept.push((k, x));
            }
            proof {
                let sub = self.envs@.subrange(0, i as int);
                let e = self.envs@[i as int];
                assert(self.envs@.subrange(0, i + 1) =~= sub.push(e));
                assert(pairs_view(sub.push(e)) =~= pairs_view(sub).push((e.0@, e.1@)));
                pairs_view(sub).lemma_filter_push((e.0@, e.1@), keep);
                assert(same == (e.0@ == key@));
                assert(keep((e.0@, e.1@)) == !same);
                if !same {
                    assert(pairs_view(kept@) =~= pairs_view(before).push((e.0@, e.1@)));
                } else {
                    assert(kept@ == before);
                }
                assert(pairs_view(kept@) == pairs_view(sub.push(e)).filter(keep));
            }
            i = i + 1;
        }
        assert(self.envs@.subrange(0, self.envs.len() as int) =~= self.envs@);
        let ghost kept_view = pairs_view(kept@);
        let k = key;
        let x = val;
        let ghost entry = (k@, x@);
        kept.push((k, x));
        assert(pairs_view(kept@) =~= kept_view.push(entry));
        self.envs = kept;
        self
    }

    /// The artifact destination for the platform that was set.
    pub fn build_path(&self, destinations: &BuildDestinations) -> (r: Result<String, SessionError>)
        ensures
            match self@.platform {
                Some(p) => r is Ok && r->Ok_0@ == destinations.spec_for(p),
                None => r == Err::<String, SessionError>(SessionError::Configuration(MissingField::Platform)),
            },
    {
        match self.platform {
            Some(p) => Ok(destinations.for_platform(p)),
            None => Err(SessionError::Configuration(MissingField::Platform)),
        }
    }

    /// The checked request, or the first required field that was not set.
    pub fn build_request(&self, destinations: &BuildDestinations) -> (r: Result<BuildRequest, SessionError>)
        ensures
            match missing_field(self@) {
                Some(f) => r == Err::<BuildRequest, SessionError>(SessionError::Configuration(f)),
                None => r is Ok && request_of(r->Ok_0, self@, *destinations),
            },
    {
        let bin_path = match &self.bin_path {
            Some(b) => b.clone(),
            None => return Err(SessionError::Configuration(MissingField::Bin)),
        };
        let platform = match self.platform {
            Some(p) => p,
            None => return Err(SessionError::Configuration(MissingField::Platform)),
        };
        let log_behavior = match self.log_behavior {
            Some(l) => l,
            None => return Err(SessionError::Configuration(MissingField::LogBehavior)),
        };
        let project_path = match &self.project_path {
            Some(p) => p.clone(),
            None => return Err(SessionError::Configuration(MissingField::ProjectPath)),
        };
        let build_entry = match &self.script_build_entry {
            Some(e) => e.clone(),
            None => return Err(SessionError::Configuration(MissingField::BuildEntry)),
        };
        let keystore_password = match &self.keystore_password {
            Some(k) => k.clone(),
            None => return Err(SessionError::Configuration(MissingField::KeystorePassword)),
        };
        let telebuild_root = match &self.telebuild_root {
            Some(t) => t.clone(),
            None => return Err(SessionError::Configuration(MissingField::TelebuildRoot)),
        };
        let log_directory = match &self.log_directory {
            Some(l) => l.clone(),
            None => return Err(SessionError::Configuration(MissingField::LogDirectory)),
        };
        let workspace_path = match &self.project_path_unity {
            Some(w) => w.clone(),
            None => project_path.clone(),
        };
        Ok(BuildRequest {
            uuid: self.uuid,
            bin_path,
            platform,
            log_behavior,
            project_path,
            workspace_path,
            build_entry,
            keystore_password,
            telebuild_root,
            log_directory,
            destination: destinations.for_platform(platform),
            envs: copy_pairs(&self.envs),
        })
    }
}

impl Default for UnityProcess {
    /// The same as `UnityProcess::new`.
    fn default() -> (r: Self)
        ensures
            r@.platform is None,
            r@.log_behavior is None,
            r@.project_path is None,
            r@.bin_path is None,
            r@.keystore_password is None,
            r@.project_path_unity is None,
            r@.script_build_entry is None,
            r@.telebuild_root is None,
            r@.log_directory is None,
            r@.envs == Seq::<(Seq<char>, Seq<char>)>::empty(),
            keys_unique(r@.envs),
            is_session_id(r@.uuid),
    {
        Self::new()
    }
}

} // verus!
