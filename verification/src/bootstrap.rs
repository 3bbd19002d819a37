//! The bootstrap sequencer: the one-time startup sequence of the shell.
//!
//! Phases advance strictly in order, each exactly once: construct the
//! builder, attach the filesystem capability plugin, run the one-time setup
//! (resolve the resource directory, derive the `data` sub-path, grant it to
//! the capability scope), attach the remaining plugins and register the
//! command handlers, then hand control to the host event loop. A failure
//! while resolving or granting aborts startup: the sequencer never reaches
//! `Running` with an incomplete capability grant.
//!
//! The host performs the outside work — resolving the platform resource
//! directory, probing the disk, running the event loop — and drives this
//! sequencer with the outcomes as plain values.

use vstd::prelude::*;
use crate::dispatch::CommandDispatcher;
use crate::dispatch::DispatchError;
use crate::dispatch::greet_command_name;
use crate::greet::greet_message;
use crate::paths::join_path;
use crate::paths::join_segment;
use crate::paths::nested_under;
use crate::scope::PathStatus;
use crate::scope::ScopeError;
use crate::scope::ScopeRegistry;
use crate::scope::scope_permits;

verus! {

/// The readiness state of the shell, advanced only by the sequencer.
#[derive(Clone, Copy, Debug, PartialEq, Eq, Structural)]
pub enum Phase {
    Constructing,
    PluginsRegistered,
    SetupRun,
    CommandsRegistered,
    Running,
    Aborted,
}

/// The capability plugins this shell wires, a closed set. The filesystem
/// plugin must be attached before setup, since setup writes its scope; the
/// link opener needs nothing before setup and is attached after.
#[derive(Clone, Copy, Debug, PartialEq, Eq, Structural)]
pub enum PluginKind {
    FsCapability,
    LinkOpener,
}

/// A fatal startup error: the resource directory could not be resolved, or
/// the derived path could not be granted. Either aborts the bootstrap.
#[derive(Clone, Copy, Debug, PartialEq, Eq, Structural)]
pub enum BootError {
    Resolution,
    ScopeGrant(ScopeError),
}

/// The fixed sub-folder of the resource directory handed to the front-end.
pub open spec fn data_segment() -> Seq<char> {
    "data"@
}

/// The bootstrap sequencer and the state it owns: the attached plugins in
/// order, the capability scope, the command dispatcher, and the path whose
/// subtree the scope was granted.
pub struct Bootstrap {
    pub phase: Phase,
    pub plugins: Vec<PluginKind>,
    pub scope: ScopeRegistry,
    pub dispatcher: CommandDispatcher,
    pub granted: Option<String>,
}

impl Bootstrap {
    /// Setup has completed its one write: the scope holds exactly the
    /// recursive grant for the derived resource path, and nothing else.
    pub open spec fn scope_populated(self) -> bool {
        &&& self.granted is Some
        &&& self.scope@ == seq![(self.granted.unwrap()@, true)]
    }

    /// Well-formedness of each phase. It pins down the whole state the
    /// sequencer may be in: which plugins are attached, whether the scope
    /// grant has been written, and which handlers are registered.
    pub open spec fn wf(self) -> bool {
        &&& self.dispatcher.well_formed()
        &&& match self.phase {
            Phase::Constructing => {
                &&& self.plugins@ == Seq::<PluginKind>::empty()
                &&& self.scope@ == Seq::<(Seq<char>, bool)>::empty()
                &&& self.dispatcher.names() == Seq::<Seq<char>>::empty()
                &&& self.granted is None
            },
            Phase::PluginsRegistered => {
                &&& self.plugins@ == seq![PluginKind::FsCapability]
                &&& self.scope@ == Seq::<(Seq<char>, bool)>::empty()
                &&& self.dispatcher.names() == Seq::<Seq<char>>::empty()
                &&& self.granted is None
            },
            Phase::SetupRun => {
                &&& self.plugins@ == seq![PluginKind::FsCapability]
                &&& self.scope_populated()
                &&& self.dispatcher.names() == Seq::<Seq<char>>::empty()
            },
            Phase::CommandsRegistered => {
                &&& self.plugins@ == seq![PluginKind::FsCapability, PluginKind::LinkOpener]
                &&& self.scope_populated()
                &&& self.dispatcher.names() == seq![greet_command_name()]
            },
            Phase::Running => {
                &&& self.plugins@ == seq![PluginKind::FsCapability, PluginKind::LinkOpener]
                &&& self.scope_populated()
                &&& self.dispatcher.names() == seq![greet_command_name()]
            },
            Phase::Aborted => {
                &&& self.scope@ == Seq::<(Seq<char>, bool)>::empty()
                &&& self.dispatcher.names() == Seq::<Seq<char>>::empty()
                &&& self.granted is None
            },
        }
    }

    /// The shell is ready to serve front-end calls.
    pub open spec fn ready(self) -> bool {
        self.phase is Running
    }

    /// Begin a bootstrap: nothing attached, nothing granted, nothing
    /// registered.
    pub fn new() -> (r: Bootstrap)
        ensures
            r.wf(),
            r.phase is Constructing,
    {
        let r = Bootstrap {
            phase: Phase::Constructing,
            plugins: Vec::new(),
            scope: ScopeRegistry::new(),
            dispatcher: CommandDispatcher::new(),
            granted: None,
        };
        proof {
            assert(r.plugins@ =~= Seq::<PluginKind>::empty());
        }
        r
    }

    /// First transition: attach the filesystem capability plugin, whose
    /// scope the coming setup step will populate.
    pub fn register_fs_plugin(&mut self)
        requires
            old(self).wf(),
            old(self).phase is Constructing,
        ensures
            final(self).wf(),
            final(self).phase is PluginsRegistered,
    {
        self.plugins.push(PluginKind::FsCapability);
        self.phase = Phase::PluginsRegistered;
        proof {
            assert(self.plugins@ =~= seq![PluginKind::FsCapability]);
        }
    }

    /// Second transition: the one-time setup. `resolved` is the host's
    /// answer for the platform resource directory (`None` when it could not
    /// be determined), and `status` is what a probe of the derived `data`
    /// sub-path reports on disk. On success the scope now holds the single
    /// recursive grant for that sub-path. On any failure the bootstrap
    /// aborts: the phase moves to `Aborted`, never further, and the error
    /// says which step failed.
    pub fn run_setup(&mut self, resolved: Option<String>, status: PathStatus) -> (r: Result<
        (),
        BootError,
    >)
        requires
            old(self).wf(),
            old(self).phase is PluginsRegistered,
        ensures
            final(self).wf(),
            resolved is None ==> {
                &&& r == Err::<(), BootError>(BootError::Resolution)
                &&& final(self).phase is Aborted
            },
            resolved is Some && status is Directory ==> {
                &&& r is Ok
                &&& final(self).phase is SetupRun
                &&& final(self).granted is Some
                &&& final(self).granted.unwrap()@ == join_path(
                    resolved.unwrap()@,
                    data_segment(),
                )
            },
            resolved is Some && status is Missing ==> {
                &&& r == Err::<(), BootError>(BootError::ScopeGrant(ScopeError::PathNotFound))
                &&& final(self).phase is Aborted
            },
            resolved is Some && status is NonDirectory ==> {
                &&& r == Err::<(), BootError>(BootError::ScopeGrant(ScopeError::NotADirectory))
                &&& final(self).phase is Aborted
            },
    {
        match resolved {
            None => {
                self.phase = Phase::Aborted;
                Err(BootError::Resolution)
            },
            Some(dir) => {
                let data_dir = join_segment(dir.as_str(), "data");
                let granted_path = data_dir.clone();
                match self.scope.allow_directory(data_dir, true, status) {
                    Ok(()) => {
                        self.granted = Some(granted_path);
                        self.phase = Phase::SetupRun;
                        proof {
                            assert(self.scope@ =~~= seq![(self.granted.unwrap()@, true)]);
                        }
                        Ok(())
                    },
                    Err(e) => {
                        self.phase = Phase::Aborted;
                        Err(BootError::ScopeGrant(e))
                    },
                }
            },
        }
    }

    /// Third transition: attach the remaining capability plugin (the link
    /// opener) and register the full set of command handlers. Only now does
    /// any handler become reachable — the scope grant is already in place.
    pub fn register_commands(&mut self)
        requires
            old(self).wf(),
            old(self).phase is SetupRun,
        ensures
            final(self).wf(),
            final(self).phase is CommandsRegistered,
    {
        self.plugins.push(PluginKind::LinkOpener);
        self.dispatcher.register_greet();
        self.phase = Phase::CommandsRegistered;
        proof {
            assert(self.plugins@ =~= seq![PluginKind::FsCapability, PluginKind::LinkOpener]);
            assert(self.dispatcher.names() =~~= seq![greet_command_name()]);
        }
    }

    /// Last transition: hand control to the host event loop. The sequencer
    /// records readiness; the loop itself belongs to the host and does not
    /// return under normal operation.
    pub fn enter_running(&mut self)
        requires
            old(self).wf(),
            old(self).phase is CommandsRegistered,
        ensures
            final(self).wf(),
            final(self).ready(),
    {
        self.phase = Phase::Running;
    }

    /// Serve one inbound front-end call. Only a ready shell dispatches;
    /// the host event loop guarantees this by construction, and unverified
    /// callers must check readiness first. The call `greet` succeeds on
    /// every text input; any other name is answered with `UnknownCommand`.
    pub fn dispatch(&self, name: &str, input: &str) -> (r: Result<String, DispatchError>)
        requires
            self.wf(),
            self.ready(),
        ensures
            r is Ok <==> name@ == greet_command_name(),
            r is Ok ==> r.unwrap()@ == greet_message(input@),
            name@ != greet_command_name() ==> r == Err::<String, DispatchError>(
                DispatchError::UnknownCommand,
            ),
    {
        proof {
            if name@ == greet_command_name() {
                assert(self.dispatcher.names()[0] == name@);
                assert(self.dispatcher.names().contains(name@));
            } else {
                assert forall|i: int|
                    0 <= i < self.dispatcher.names().len() implies self.dispatcher.names()[i]
                    != name@ by {}
                assert(!self.dispatcher.names().contains(name@));
            }
        }
        self.dispatcher.dispatch(name, input)
    }
}

/// Ordering invariant of the bootstrap: whenever any command handler is
/// registered — that is, as soon as a front-end call could be routed at all
/// — the capability scope already holds the recursive resource grant. A
/// dispatched call can therefore never run ahead of the scope grant.
pub proof fn lemma_handlers_imply_scope_granted(b: Bootstrap)
    requires
        b.wf(),
        b.dispatcher.names().len() > 0,
    ensures
        b.scope_populated(),
{
}

/// Once setup has completed, the scope permits the granted resource path
/// and every path nested under it.
pub proof fn lemma_populated_scope_permits_resource_tree(b: Bootstrap, target: Seq<char>)
    requires
        b.wf(),
        b.scope_populated(),
        nested_under(target, b.granted.unwrap()@),
    ensures
        scope_permits(b.scope@, target),
{
    assert(b.scope@[0] == (b.granted.unwrap()@, true));
    assert(b.scope@.contains((b.granted.unwrap()@, true)));
    crate::scope::lemma_recursive_grant_permits(b.scope@, b.granted.unwrap()@, target);
}

/// One permitted phase change of the sequencer: the strict bootstrap order,
/// plus the abort edge out of setup. No edge leaves `Aborted` or `Running`.
pub open spec fn phase_step(pre: Phase, post: Phase) -> bool {
    ||| (pre is Constructing && post is PluginsRegistered)
    ||| (pre is PluginsRegistered && post is SetupRun)
    ||| (pre is PluginsRegistered && post is Aborted)
    ||| (pre is SetupRun && post is CommandsRegistered)
    ||| (pre is CommandsRegistered && post is Running)
}

/// A phase history of one process: consecutive entries are related by one
/// permitted step.
pub open spec fn valid_phase_trace(t: Seq<Phase>) -> bool {
    forall|i: int| 0 <= i < t.len() - 1 ==> #[trigger] phase_step(t[i], t[i + 1])
}

/// An aborted bootstrap never reaches `Running`: no permitted step leaves
/// `Aborted`, so in any valid phase history the abort is the final phase.
pub proof fn lemma_aborted_never_runs(t: Seq<Phase>, i: int)
    requires
        valid_phase_trace(t),
        0 <= i < t.len(),
        t[i] is Aborted,
    ensures
        i == t.len() - 1,
        forall|j: int| i <= j < t.len() ==> !(t[j] is Running),
{
    if i < t.len() - 1 {
        assert(phase_step(t[i], t[i + 1]));
    }
}

/// The ordering invariant at the level of whole executions: in a phase
/// history that starts at construction, `Running` is reached only directly
/// from `CommandsRegistered`, which itself follows `SetupRun` — so the
/// setup step, and with it the scope grant, precedes readiness.
pub proof fn lemma_running_preceded_by_setup(t: Seq<Phase>, j: int)
    requires
        valid_phase_trace(t),
        t.len() > 0,
        t[0] is Constructing,
        0 <= j < t.len(),
        t[j] is Running,
    ensures
        2 <= j,
        t[j - 1] is CommandsRegistered,
        t[j - 2] is SetupRun,
{
    assert(j >= 1);
    let k = j - 1;
    assert(phase_step(t[k], t[k + 1]));
    assert(t[j - 1] is CommandsRegistered);
    assert(j - 1 >= 1);
    let m = j - 2;
    assert(phase_step(t[m], t[m + 1]));
}

} // verus!
