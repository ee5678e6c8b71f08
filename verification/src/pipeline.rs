//! The compile orchestrator, as a state machine.
//!
//! One compile request is one [`CompileSession`]. The session never performs
//! I/O itself: each [`Action`] it emits names one piece of outside work —
//! one engine invocation, or the creation of the artifact directory — and
//! the unverified driver performs it and reports what happened as an
//! [`Event`]. Every decision lives in [`CompileSession::step`], which is
//! proved to follow the specification transition [`next`]; the resource
//! safety of the whole pipeline (every created sandbox instance is destroyed
//! exactly once, on every path) is a theorem about traces of [`next`],
//! proved in this module.
//!
//! A non-zero exit of the sandboxed build itself is not a failure of the
//! pipeline: it is folded into the verdict as a normal
//! [`CompilationResult::Error`], and the instance is still destroyed.

use crate::artifacts::artifact_dir;
use crate::artifacts::artifact_dir_v;
use crate::artifacts::CACHE_SUBDIR;
use crate::engine::classify;
use crate::engine::classify_v;
use crate::engine::Invocation;
use crate::engine::InvocationV;
use crate::hash::fnv64;
use crate::outcome::CompilationResult;
use crate::outcome::CompilationResultV;
use crate::outcome::Error;
use crate::outcome::ErrorV;
use crate::source_id::dec_seq;
use crate::source_id::SourceHash;
use vstd::prelude::*;
use vstd::utf8::encode_utf8;

verus! {

/// The fixed configuration of the pipeline: the pre-built builder image, the
/// fixed paths inside the container, and the host-side cache root.
pub struct Config {
    /// Name of the pre-built builder image instances are created from.
    pub image: String,
    /// Path inside the container where the source is injected.
    pub source_path: String,
    /// Directory inside the container whose contents are extracted after a
    /// successful build.
    pub output_path: String,
    /// Host directory under which one subdirectory per content hash lives.
    pub cache_dir: String,
}

/// The mathematical shape of a [`Config`].
pub ghost struct ConfigV {
    pub image: Seq<char>,
    pub source_path: Seq<char>,
    pub output_path: Seq<char>,
    pub cache_dir: Seq<char>,
}

impl View for Config {
    type V = ConfigV;

    open spec fn view(&self) -> ConfigV {
        ConfigV {
            image: self.image@,
            source_path: self.source_path@,
            output_path: self.output_path@,
            cache_dir: self.cache_dir@,
        }
    }
}

/// The production configuration, under a caller-supplied temp root.
pub fn default_config(temp_root: &str) -> (c: Config)
    ensures
        c@.image == "bevy-builder"@,
        c@.source_path == "/project/src/main.rs"@,
        c@.output_path == "/project/out/."@,
        c@.cache_dir == crate::artifacts::joined(temp_root@, CACHE_SUBDIR@),
{
    Config {
        image: String::from_str("bevy-builder"),
        source_path: String::from_str("/project/src/main.rs"),
        output_path: String::from_str("/project/out/."),
        cache_dir: crate::artifacts::join_path(temp_root, CACHE_SUBDIR),
    }
}

/// Where one compile attempt stands. The instance id is carried from its
/// creation to its destruction; the verdict is carried from the moment it is
/// decided to the end.
pub enum CompileState {
    /// The create invocation is in flight.
    Creating,
    /// The instance exists; the source-injection copy is in flight.
    Injecting { instance: String },
    /// The build is running inside the instance.
    Running { instance: String },
    /// The build succeeded; the artifact directory is being created.
    Preparing { instance: String },
    /// The artifact extraction copy is in flight.
    Extracting { instance: String },
    /// The verdict is decided; the destroy invocation is in flight.
    Destroying { instance: String, verdict: Result<CompilationResult, Error> },
    /// The attempt is over.
    Done { verdict: Result<CompilationResult, Error> },
}

/// The mathematical shape of a [`CompileState`].
pub ghost enum CompileStateV {
    Creating,
    Injecting { instance: Seq<char> },
    Running { instance: Seq<char> },
    Preparing { instance: Seq<char> },
    Extracting { instance: Seq<char> },
    Destroying { instance: Seq<char>, verdict: Result<CompilationResultV, ErrorV> },
    Done { verdict: Result<CompilationResultV, ErrorV> },
}

/// The view of a verdict.
pub open spec fn verdict_v(r: Result<CompilationResult, Error>) -> Result<
    CompilationResultV,
    ErrorV,
> {
    match r {
        Ok(c) => Ok(c@),
        Err(e) => Err(e@),
    }
}

impl View for CompileState {
    type V = CompileStateV;

    open spec fn view(&self) -> CompileStateV {
        match self {
            CompileState::Creating => CompileStateV::Creating,
            CompileState::Injecting { instance } => CompileStateV::Injecting {
                instance: instance@,
            },
            CompileState::Running { instance } => CompileStateV::Running { instance: instance@ },
            CompileState::Preparing { instance } => CompileStateV::Preparing {
                instance: instance@,
            },
            CompileState::Extracting { instance } => CompileStateV::Extracting {
                instance: instance@,
            },
            CompileState::Destroying { instance, verdict } => CompileStateV::Destroying {
                instance: instance@,
                verdict: verdict_v(*verdict),
            },
            CompileState::Done { verdict } => CompileStateV::Done { verdict: verdict_v(*verdict) },
        }
    }
}

/// What the driver reports back after performing one action.
pub enum Event {
    /// The outcome of the engine invocation that the action asked for.
    Engine { inv: Invocation },
    /// The outcome of creating the artifact directory: `None` on success
    /// (an already existing directory is a success), or the failure text.
    HostDir { error: Option<String> },
}

/// The mathematical shape of an [`Event`].
pub ghost enum EventV {
    Engine { inv: InvocationV },
    HostDir { error: Option<Seq<char>> },
}

impl View for Event {
    type V = EventV;

    open spec fn view(&self) -> EventV {
        match self {
            Event::Engine { inv } => EventV::Engine { inv: inv@ },
            Event::HostDir { error } => EventV::HostDir {
                error: match error {
                    Some(m) => Some(m@),
                    None => None,
                },
            },
        }
    }
}

/// The piece of outside work the driver is asked to perform next.
pub enum Action {
    /// Invoke `create` on the configured image.
    CreateInstance,
    /// Stage the session's source to a local file and copy it to the
    /// configured source path inside the instance.
    InjectSource { instance: String },
    /// Invoke `start --attach` and wait for the build to exit.
    RunInstance { instance: String },
    /// Create this host directory, treating an existing one as success.
    MakeArtifactDir { path: String },
    /// Copy the configured output directory of the instance to this host
    /// directory.
    ExtractArtifacts { instance: String, host_dir: String },
    /// Invoke `rm` on the instance.
    DestroyInstance { instance: String },
    /// Nothing is left to do; the verdict is available.
    Report,
}

/// The mathematical shape of an [`Action`].
pub ghost enum ActionV {
    CreateInstance,
    InjectSource { instance: Seq<char> },
    RunInstance { instance: Seq<char> },
    MakeArtifactDir { path: Seq<char> },
    ExtractArtifacts { instance: Seq<char>, host_dir: Seq<char> },
    DestroyInstance { instance: Seq<char> },
    Report,
}

impl View for Action {
    type V = ActionV;

    open spec fn view(&self) -> ActionV {
        match self {
            Action::CreateInstance => ActionV::CreateInstance,
            Action::InjectSource { instance } => ActionV::InjectSource { instance: instance@ },
            Action::RunInstance { instance } => ActionV::RunInstance { instance: instance@ },
            Action::MakeArtifactDir { path } => ActionV::MakeArtifactDir { path: path@ },
            Action::ExtractArtifacts { instance, host_dir } => ActionV::ExtractArtifacts {
                instance: instance@,
                host_dir: host_dir@,
            },
            Action::DestroyInstance { instance } => ActionV::DestroyInstance {
                instance: instance@,
            },
            Action::Report => ActionV::Report,
        }
    }
}

/// The transition relation of one compile attempt: from a state and the
/// event the driver reported, the next state and the next action.
///
/// Central invariant, proved below as [`lemma_created_iff_destroyed`]: once
/// an instance id has been learned (the `create` invocation succeeded), the
/// id is carried through every state until a `DestroyInstance` action for it
/// is emitted, exactly once, whatever the events — an injection failure, a
/// failed build, a failed extraction and a success all pass through
/// `Destroying`. A failure of the `start` invocation with captured
/// diagnostics is the user's build failing: it becomes an `Error` verdict
/// carrying those diagnostics, not an infrastructure error. An event that
/// does not answer the pending action leaves the state unchanged.
pub open spec fn next(c: ConfigV, hash: Seq<char>, s: CompileStateV, ev: EventV) -> (
    CompileStateV,
    ActionV,
) {
    match (s, ev) {
        (CompileStateV::Creating, EventV::Engine { inv }) => match classify_v("create"@, inv) {
            Ok(id) => (
                CompileStateV::Injecting { instance: id },
                ActionV::InjectSource { instance: id },
            ),
            Err(e) => (CompileStateV::Done { verdict: Err(e) }, ActionV::Report),
        },
        (CompileStateV::Injecting { instance }, EventV::Engine { inv }) => match classify_v(
            "cp"@,
            inv,
        ) {
            Ok(_) => (
                CompileStateV::Running { instance },
                ActionV::RunInstance { instance },
            ),
            Err(e) => (
                CompileStateV::Destroying { instance, verdict: Err(e) },
                ActionV::DestroyInstance { instance },
            ),
        },
        (CompileStateV::Running { instance }, EventV::Engine { inv }) => match classify_v(
            "start"@,
            inv,
        ) {
            Ok(_) => (
                CompileStateV::Preparing { instance },
                ActionV::MakeArtifactDir { path: artifact_dir_v(c.cache_dir, hash) },
            ),
            Err(e) => match e {
                ErrorV::PodmanCLI { command: _, stderr } => (
                    CompileStateV::Destroying {
                        instance,
                        verdict: Ok(CompilationResultV::Error { msg: stderr }),
                    },
                    ActionV::DestroyInstance { instance },
                ),
                _ => (
                    CompileStateV::Destroying { instance, verdict: Err(e) },
                    ActionV::DestroyInstance { instance },
                ),
            },
        },
        (CompileStateV::Preparing { instance }, EventV::HostDir { error }) => match error {
            None => (
                CompileStateV::Extracting { instance },
                ActionV::ExtractArtifacts {
                    instance,
                    host_dir: artifact_dir_v(c.cache_dir, hash),
                },
            ),
            Some(m) => (
                CompileStateV::Destroying { instance, verdict: Err(ErrorV::IO { message: m }) },
                ActionV::DestroyInstance { instance },
            ),
        },
        (CompileStateV::Extracting { instance }, EventV::Engine { inv }) => match classify_v(
            "cp"@,
            inv,
        ) {
            Ok(_) => (
                CompileStateV::Destroying {
                    instance,
                    verdict: Ok(CompilationResultV::Success { id: hash }),
                },
                ActionV::DestroyInstance { instance },
            ),
            Err(e) => (
                CompileStateV::Destroying { instance, verdict: Err(e) },
                ActionV::DestroyInstance { instance },
            ),
        },
        (CompileStateV::Destroying { instance: _, verdict }, EventV::Engine { inv }) => match
            classify_v("rm"@, inv) {
            Ok(_) => (CompileStateV::Done { verdict }, ActionV::Report),
            Err(e) => (CompileStateV::Done { verdict: Err(e) }, ActionV::Report),
        },
        _ => (s, ActionV::Report),
    }
}

/// One compile attempt: the configuration, the submitted source, its
/// content identifier, and where the attempt stands.
pub struct CompileSession {
    pub config: Config,
    pub source: String,
    pub hash: SourceHash,
    pub state: CompileState,
}

/// The mathematical shape of a [`CompileSession`].
pub ghost struct CompileSessionV {
    pub config: ConfigV,
    pub source: Seq<char>,
    pub hash: Seq<char>,
    pub state: CompileStateV,
}

impl View for CompileSession {
    type V = CompileSessionV;

    open spec fn view(&self) -> CompileSessionV {
        CompileSessionV {
            config: self.config@,
            source: self.source@,
            hash: self.hash@,
            state: self.state@,
        }
    }
}

/// The verdict recorded in a finished state.
pub open spec fn done_verdict(s: CompileStateV) -> Result<CompilationResultV, ErrorV>
    recommends
        s is Done,
{
    match s {
        CompileStateV::Done { verdict } => verdict,
        _ => arbitrary(),
    }
}

impl CompileSession {
    /// A session is well formed when its identifier is the decimal
    /// rendering of its source's content hash.
    pub open spec fn wf(&self) -> bool {
        self@.hash == dec_seq(fnv64(encode_utf8(self.source@)) as nat)
    }

    /// Open a compile attempt for one source text: hash it, and ask the
    /// driver to create a sandbox instance.
    pub fn begin(config: Config, source: String) -> (r: (CompileSession, Action))
        ensures
            r.0@.config == config@,
            r.0@.source == source@,
            r.0@.hash == dec_seq(fnv64(encode_utf8(source@)) as nat),
            r.0@.state == CompileStateV::Creating,
            r.0.wf(),
            r.1@ == ActionV::CreateInstance,
    {
        let hash = SourceHash::of_source(source.as_str());
        (
            CompileSession { config, source, hash, state: CompileState::Creating },
            Action::CreateInstance,
        )
    }

    /// Advance the attempt by one reported event. The new state and the
    /// emitted action are exactly those of the specification transition
    /// [`next`]; the configuration, source and identifier never change.
    pub fn step(self, event: Event) -> (r: (CompileSession, Action))
        ensures
            r.0@.config == self@.config,
            r.0@.source == self@.source,
            r.0@.hash == self@.hash,
            r.0@.state == next(self@.config, self@.hash, self@.state, event@).0,
            r.1@ == next(self@.config, self@.hash, self@.state, event@).1,
            self.wf() ==> r.0.wf(),
    {
        let CompileSession { config, source, hash, state } = self;
        match (state, event) {
            (CompileState::Creating, Event::Engine { inv }) => match classify("create", inv) {
                Ok(id) => {
                    let named = id.clone();
                    (
                        CompileSession {
                            config,
                            source,
                            hash,
                            state: CompileState::Injecting { instance: id },
                        },
                        Action::InjectSource { instance: named },
                    )
                },
                Err(e) => (
                    CompileSession {
                        config,
                        source,
                        hash,
                        state: CompileState::Done { verdict: Err(e) },
                    },
                    Action::Report,
                ),
            },
            (CompileState::Injecting { instance }, Event::Engine { inv }) => match classify(
                "cp",
                inv,
            ) {
                Ok(_) => {
                    let named = instance.clone();
                    (
                        CompileSession {
                            config,
                            source,
                            hash,
                            state: CompileState::Running { instance },
                        },
                        Action::RunInstance { instance: named },
                    )
                },
                Err(e) => {
                    let named = instance.clone();
                    (
                        CompileSession {
                            config,
                            source,
                            hash,
                            state: CompileState::Destroying { instance, verdict: Err(e) },
                        },
                        Action::DestroyInstance { instance: named },
                    )
                },
            },
            (CompileState::Running { instance }, Event::Engine { inv }) => match classify(
                "start",
                inv,
            ) {
                Ok(_) => {
                    let path = artifact_dir(config.cache_dir.as_str(), &hash);
                    (
                        CompileSession {
                            config,
                            source,
                            hash,
                            state: CompileState::Preparing { instance },
                        },
                        Action::MakeArtifactDir { path },
                    )
                },
                Err(e) => {
                    let named = instance.clone();
                    match e {
                        Error::PodmanCLI { command: _, stderr } => (
                            CompileSession {
                                config,
                                source,
                                hash,
                                state: CompileState::Destroying {
                                    instance,
                                    verdict: Ok(CompilationResult::Error { msg: stderr }),
                                },
                            },
                            Action::DestroyInstance { instance: named },
                        ),
                        other => (
                            CompileSession {
                                config,
                                source,
                                hash,
                                state: CompileState::Destroying {
                                    instance,
                                    verdict: Err(other),
                                },
                            },
                            Action::DestroyInstance { instance: named },
                        ),
                    }
                },
            },
            (CompileState::Preparing { instance }, Event::HostDir { error }) => match error {
                None => {
                    let named = instance.clone();
                    let host_dir = artifact_dir(config.cache_dir.as_str(), &hash);
                    (
                        CompileSession {
                            config,
                            source,
                            hash,
                            state: CompileState::Extracting { instance },
                        },
                        Action::ExtractArtifacts { instance: named, host_dir },
                    )
                },
                Some(m) => {
                    let named = instance.clone();
                    (
                        CompileSession {
                            config,
                            source,
                            hash,
                            state: CompileState::Destroying {
                                instance,
                                verdict: Err(Error::IO { message: m }),
                            },
                        },
                        Action::DestroyInstance { instance: named },
                    )
                },
            },
            (CompileState::Extracting { instance }, Event::Engine { inv }) => match classify(
                "cp",
                inv,
            ) {
                Ok(_) => {
                    let named = instance.clone();
                    let id = hash.0.clone();
                    (
                        CompileSession {
                            config,
                            source,
                            hash,
                            state: CompileState::Destroying {
                                instance,
                                verdict: Ok(CompilationResult::Success { id }),
                            },
                        },
                        Action::DestroyInstance { instance: named },
                    )
                },
                Err(e) => {
                    let named = instance.clone();
                    (
                        CompileSession {
                            config,
                            source,
                            hash,
                            state: CompileState::Destroying { instance, verdict: Err(e) },
                        },
                        Action::DestroyInstance { instance: named },
                    )
                },
            },
            (CompileState::Destroying { instance: _, verdict }, Event::Engine { inv }) => match
                classify("rm", inv) {
                Ok(_) => (
                    CompileSession {
                        config,
                        source,
                        hash,
                        state: CompileState::Done { verdict },
                    },
                    Action::Report,
                ),
                Err(e) => (
                    CompileSession {
                        config,
                        source,
                        hash,
                        state: CompileState::Done { verdict: Err(e) },
                    },
                    Action::Report,
                ),
            },
            (st, _) => (
                CompileSession { config, source, hash, state: st },
                Action::Report,
            ),
        }
    }

    /// Whether the attempt is over.
    pub fn is_done(&self) -> (r: bool)
        ensures
            r == (self@.state is Done),
    {
        match &self.state {
            CompileState::Done { .. } => true,
            _ => false,
        }
    }

    /// The verdict of a finished attempt.
    pub fn verdict(self) -> (r: Result<CompilationResult, Error>)
        requires
            self@.state is Done,
        ensures
            verdict_v(r) == done_verdict(self@.state),
    {
        match self.state {
            CompileState::Done { verdict } => verdict,
            _ => Err(Error::IO { message: String::new() }),
        }
    }
}

/// The state after the driver has reported each event of `evs` in turn.
pub open spec fn run_state(
    c: ConfigV,
    hash: Seq<char>,
    s: CompileStateV,
    evs: Seq<EventV>,
) -> CompileStateV
    decreases evs.len(),
{
    if evs.len() == 0 {
        s
    } else {
        run_state(c, hash, next(c, hash, s, evs[0]).0, evs.drop_first())
    }
}

/// The instances whose creation the engine reported over a trace: one entry
/// for each transition that learned a fresh instance id from a successful
/// `create` invocation.
pub open spec fn created_instances(
    c: ConfigV,
    hash: Seq<char>,
    s: CompileStateV,
    evs: Seq<EventV>,
) -> Seq<Seq<char>>
    decreases evs.len(),
{
    if evs.len() == 0 {
        Seq::empty()
    } else {
        let step = next(c, hash, s, evs[0]);
        (match step.1 {
            ActionV::InjectSource { instance } => seq![instance],
            _ => Seq::empty(),
        }) + created_instances(c, hash, step.0, evs.drop_first())
    }
}

/// The instances whose destruction was requested over a trace: one entry
/// for each `DestroyInstance` action emitted.
pub open spec fn destroyed_instances(
    c: ConfigV,
    hash: Seq<char>,
    s: CompileStateV,
    evs: Seq<EventV>,
) -> Seq<Seq<char>>
    decreases evs.len(),
{
    if evs.len() == 0 {
        Seq::empty()
    } else {
        let step = next(c, hash, s, evs[0]);
        (match step.1 {
            ActionV::DestroyInstance { instance } => seq![instance],
            _ => Seq::empty(),
        }) + destroyed_instances(c, hash, step.0, evs.drop_first())
    }
}

/// The host directories that artifact work targeted over a trace: the path
/// of every `MakeArtifactDir` and the destination of every
/// `ExtractArtifacts` action.
pub open spec fn artifact_dir_targets(
    c: ConfigV,
    hash: Seq<char>,
    s: CompileStateV,
    evs: Seq<EventV>,
) -> Seq<Seq<char>>
    decreases evs.len(),
{
    if evs.len() == 0 {
        Seq::empty()
    } else {
        let step = next(c, hash, s, evs[0]);
        (match step.1 {
            ActionV::MakeArtifactDir { path } => seq![path],
            ActionV::ExtractArtifacts { instance: _, host_dir } => seq![host_dir],
            _ => Seq::empty(),
        }) + artifact_dir_targets(c, hash, step.0, evs.drop_first())
    }
}

/// Whether the state holds a created instance whose destruction has not yet
/// been requested.
pub open spec fn holds_instance(s: CompileStateV) -> bool {
    match s {
        CompileStateV::Injecting { .. } => true,
        CompileStateV::Running { .. } => true,
        CompileStateV::Preparing { .. } => true,
        CompileStateV::Extracting { .. } => true,
        _ => false,
    }
}

/// The instance a state holds.
pub open spec fn instance_of(s: CompileStateV) -> Seq<char>
    recommends
        holds_instance(s),
{
    match s {
        CompileStateV::Injecting { instance } => instance,
        CompileStateV::Running { instance } => instance,
        CompileStateV::Preparing { instance } => instance,
        CompileStateV::Extracting { instance } => instance,
        _ => arbitrary(),
    }
}

/// Once the destroy has been requested, or the attempt is over, the trace
/// emits no further creation, destruction or artifact work.
proof fn lemma_settled_emits_nothing(c: ConfigV, hash: Seq<char>, s: CompileStateV, evs: Seq<EventV>)
    requires
        s is Destroying || s is Done,
    ensures
        created_instances(c, hash, s, evs) =~= Seq::<Seq<char>>::empty(),
        destroyed_instances(c, hash, s, evs) =~= Seq::<Seq<char>>::empty(),
        artifact_dir_targets(c, hash, s, evs) =~= Seq::<Seq<char>>::empty(),
    decreases evs.len(),
{
    if evs.len() > 0 {
        let step = next(c, hash, s, evs[0]);
        lemma_settled_emits_nothing(c, hash, step.0, evs.drop_first());
    }
}

/// A finished attempt stays finished, with its verdict unchanged, whatever
/// the driver still reports.
proof fn lemma_done_stays(
    c: ConfigV,
    hash: Seq<char>,
    v: Result<CompilationResultV, ErrorV>,
    evs: Seq<EventV>,
)
    ensures
        run_state(c, hash, CompileStateV::Done { verdict: v }, evs) == (CompileStateV::Done {
            verdict: v,
        }),
    decreases evs.len(),
{
    if evs.len() > 0 {
        lemma_done_stays(c, hash, v, evs.drop_first());
    }
}

/// From the moment the destroy is requested with verdict `v`, the attempt
/// finishes with `v` itself, or with an infrastructure error if the destroy
/// invocation failed.
proof fn lemma_destroying_verdict(
    c: ConfigV,
    hash: Seq<char>,
    i: Seq<char>,
    v: Result<CompilationResultV, ErrorV>,
    evs: Seq<EventV>,
)
    requires
        run_state(c, hash, CompileStateV::Destroying { instance: i, verdict: v }, evs) is Done,
    ensures
        done_verdict(run_state(c, hash, CompileStateV::Destroying { instance: i, verdict: v }, evs))
            == v || done_verdict(
            run_state(c, hash, CompileStateV::Destroying { instance: i, verdict: v }, evs),
        ) is Err,
    decreases evs.len(),
{
    let s = CompileStateV::Destroying { instance: i, verdict: v };
    if evs.len() > 0 {
        let step = next(c, hash, s, evs[0]);
        if step.0 is Done {
            lemma_done_stays(c, hash, done_verdict(step.0), evs.drop_first());
        } else {
            lemma_destroying_verdict(c, hash, i, v, evs.drop_first());
        }
    }
}

/// While the state holds an instance, a completed trace requests exactly
/// one destruction — of that very instance — and learns no further one.
proof fn lemma_holder_destroys_once(
    c: ConfigV,
    hash: Seq<char>,
    s: CompileStateV,
    evs: Seq<EventV>,
)
    requires
        holds_instance(s),
        run_state(c, hash, s, evs) is Done,
    ensures
        destroyed_instances(c, hash, s, evs) =~= seq![instance_of(s)],
        created_instances(c, hash, s, evs) =~= Seq::<Seq<char>>::empty(),
    decreases evs.len(),
{
    let step = next(c, hash, s, evs[0]);
    let rest = evs.drop_first();
    if step.0 is Destroying {
        assert(step.1 == (ActionV::DestroyInstance { instance: instance_of(s) }));
        lemma_settled_emits_nothing(c, hash, step.0, rest);
    } else {
        assert(holds_instance(step.0) && instance_of(step.0) == instance_of(s));
        lemma_holder_destroys_once(c, hash, step.0, rest);
    }
}

/// Resource safety of the whole pipeline: over any completed compile
/// attempt, the instances destroyed are exactly the instances created — at
/// most one — whatever the driver reported. An injection failure, a failed
/// build, a failed directory creation, a failed extraction and a success
/// all destroy the one created instance exactly once; and when the `create`
/// invocation itself failed, nothing is destroyed.
pub proof fn lemma_created_iff_destroyed(c: ConfigV, hash: Seq<char>, evs: Seq<EventV>)
    requires
        run_state(c, hash, CompileStateV::Creating, evs) is Done,
    ensures
        destroyed_instances(c, hash, CompileStateV::Creating, evs) =~= created_instances(
            c,
            hash,
            CompileStateV::Creating,
            evs,
        ),
        created_instances(c, hash, CompileStateV::Creating, evs).len() <= 1,
    decreases evs.len(),
{
    let s = CompileStateV::Creating;
    let step = next(c, hash, s, evs[0]);
    let rest = evs.drop_first();
    if step.0 is Creating {
        lemma_created_iff_destroyed(c, hash, rest);
    } else if step.0 is Done {
        lemma_settled_emits_nothing(c, hash, step.0, rest);
    } else {
        assert(holds_instance(step.0));
        assert(step.1 == (ActionV::InjectSource { instance: instance_of(step.0) }));
        lemma_holder_destroys_once(c, hash, step.0, rest);
    }
}

/// After the sandboxed build exits non-zero, the pipeline never asks for an
/// artifact directory or an extraction, and the attempt finishes reporting
/// the captured diagnostics as the build-failure verdict — or an
/// infrastructure error, if destroying the instance itself then failed.
pub proof fn lemma_build_failure_reported(
    c: ConfigV,
    hash: Seq<char>,
    i: Seq<char>,
    out: Option<Seq<char>>,
    msg: Seq<char>,
    evs: Seq<EventV>,
)
    requires
        evs.len() > 0,
        evs[0] == (EventV::Engine {
            inv: InvocationV::Exited { success: false, stdout: out, stderr: Some(msg) },
        }),
        run_state(c, hash, CompileStateV::Running { instance: i }, evs) is Done,
    ensures
        artifact_dir_targets(c, hash, CompileStateV::Running { instance: i }, evs) =~= Seq::<
            Seq<char>,
        >::empty(),
        done_verdict(run_state(c, hash, CompileStateV::Running { instance: i }, evs)) == Ok::<
            CompilationResultV,
            ErrorV,
        >(CompilationResultV::Error { msg }) || done_verdict(
            run_state(c, hash, CompileStateV::Running { instance: i }, evs),
        ) is Err,
{
    let s = CompileStateV::Running { instance: i };
    let step = next(c, hash, s, evs[0]);
    let rest = evs.drop_first();
    assert(step.0 == (CompileStateV::Destroying {
        instance: i,
        verdict: Ok::<CompilationResultV, ErrorV>(CompilationResultV::Error { msg }),
    }));
    lemma_destroying_verdict(
        c,
        hash,
        i,
        Ok::<CompilationResultV, ErrorV>(CompilationResultV::Error { msg }),
        rest,
    );
    lemma_settled_emits_nothing(c, hash, step.0, rest);
}

/// When the extraction copy has succeeded, the attempt finishes reporting
/// success under the session's own identifier — the same identifier whose
/// store directory every piece of artifact work targeted — or an
/// infrastructure error, if destroying the instance then failed.
pub proof fn lemma_extraction_success_reports_hash(
    c: ConfigV,
    hash: Seq<char>,
    i: Seq<char>,
    out: Seq<char>,
    err: Option<Seq<char>>,
    evs: Seq<EventV>,
)
    requires
        evs.len() > 0,
        evs[0] == (EventV::Engine {
            inv: InvocationV::Exited { success: true, stdout: Some(out), stderr: err },
        }),
        run_state(c, hash, CompileStateV::Extracting { instance: i }, evs) is Done,
    ensures
        done_verdict(run_state(c, hash, CompileStateV::Extracting { instance: i }, evs)) == Ok::<
            CompilationResultV,
            ErrorV,
        >(CompilationResultV::Success { id: hash }) || done_verdict(
            run_state(c, hash, CompileStateV::Extracting { instance: i }, evs),
        ) is Err,
{
    let s = CompileStateV::Extracting { instance: i };
    let step = next(c, hash, s, evs[0]);
    assert(step.0 == (CompileStateV::Destroying {
        instance: i,
        verdict: Ok::<CompilationResultV, ErrorV>(CompilationResultV::Success { id: hash }),
    }));
    lemma_destroying_verdict(
        c,
        hash,
        i,
        Ok::<CompilationResultV, ErrorV>(CompilationResultV::Success { id: hash }),
        evs.drop_first(),
    );
}

/// Every host directory the pipeline ever targets with artifact work is the
/// store directory of the session's own identifier — the directory under
/// which the artifact reader resolves that identifier. Together with the
/// distinctness of store directories for distinct hashes, concurrent
/// attempts with distinct hashes never target each other's slot.
pub proof fn lemma_artifact_targets_are_store_dir(
    c: ConfigV,
    hash: Seq<char>,
    s: CompileStateV,
    evs: Seq<EventV>,
)
    ensures
        forall|j: int|
            0 <= j < artifact_dir_targets(c, hash, s, evs).len() ==> artifact_dir_targets(
                c,
                hash,
                s,
                evs,
            )[j] == artifact_dir_v(c.cache_dir, hash),
    decreases evs.len(),
{
    if evs.len() > 0 {
        let step = next(c, hash, s, evs[0]);
        let head = (match step.1 {
            ActionV::MakeArtifactDir { path } => seq![path],
            ActionV::ExtractArtifacts { instance: _, host_dir } => seq![host_dir],
            _ => Seq::<Seq<char>>::empty(),
        });
        let tail = artifact_dir_targets(c, hash, step.0, evs.drop_first());
        lemma_artifact_targets_are_store_dir(c, hash, step.0, evs.drop_first());
        assert forall|j: int|
            0 <= j < artifact_dir_targets(c, hash, s, evs).len() implies artifact_dir_targets(
            c,
            hash,
            s,
            evs,
        )[j] == artifact_dir_v(c.cache_dir, hash) by {
            assert(artifact_dir_targets(c, hash, s, evs) == head + tail);
            if j < head.len() {
                assert((head + tail)[j] == head[j]);
            } else {
                assert((head + tail)[j] == tail[j - head.len()]);
            }
        }
    }
}

} // verus!
