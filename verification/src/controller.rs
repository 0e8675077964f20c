//! The public operation surface: launch gating and registration, status,
//! stop, subscriptions, and the per-tick monitoring decision.
//!
//! The controller owns the process registry (the single source of truth for
//! which processes are monitored), the application-to-process bindings, and
//! the notification hub. Callers serialize access to it (one
//! mutual-exclusion domain held only across these operations, never across
//! OS calls); request handlers and monitor loops perform the OS work and
//! hand its results in as plain values.

use vstd::prelude::*;

use tokio::sync::broadcast::Receiver;

use crate::hub::NotificationHub;
use crate::models::ProcessInfo;
use crate::models::ProcessStatus;
use crate::models::ProcessStatusResponse;
use crate::models::status_label;
use crate::probe::LivenessVerdict;
use crate::probe::liveness_verdict;
use crate::probe::spec_verdict;
use crate::table::StrTable;

verus! {

/// Why an operation was refused.
#[derive(Clone, Copy, Debug, PartialEq, Eq, Structural)]
pub enum ControlError {
    /// Unknown process or application identifier.
    NotFound,
    /// The application's resolved executable path does not exist on disk.
    InvalidTarget,
    /// The actor is not authenticated.
    Unauthorized,
    /// The spawn itself failed.
    InternalError,
}

/// The identifier handed to `stop`. Callers state which kind of identifier
/// they hold, so resolution never guesses from the string's shape.
pub enum StopTarget {
    /// A process id, as returned by launch registration.
    Process(String),
    /// An application id, resolved through its active binding.
    Application(String),
}

/// What a successful stop asks its caller to do: terminate the known child
/// pids, then the primary pid. Termination failures on pids that already
/// exited are tolerated; the registry removal has already happened.
#[derive(Debug)]
pub struct StopPlan {
    pub process_id: String,
    pub os_pid: u32,
    pub child_os_pids: Vec<u32>,
}

/// Outcome of one monitor tick.
pub enum TickOutcome {
    /// The record was already gone — the process was explicitly removed —
    /// and a final "Stopped" was published; the monitor must terminate.
    Detached,
    /// The process tree is alive, or liveness was not determinable this
    /// tick: nothing changed, keep monitoring.
    KeepWatching,
    /// Death was decisively observed: the record and its binding were
    /// removed, and the event carried here was published; the monitor must
    /// terminate.
    Ended(String),
}

/// The process id a stop target resolves to, through the bindings table
/// where an application id was given.
pub open spec fn spec_resolve(bindings: Map<Seq<char>, String>, target: StopTarget) -> Option<
    Seq<char>> {
    match target {
        StopTarget::Process(p) => Some(p@),
        StopTarget::Application(a) => if bindings.contains_key(a@) {
            Some(bindings[a@]@)
        } else {
            None
        },
    }
}

/// The event text published when a process is observed dead: "Exited" when
/// an exit code was captured, otherwise "Stopped".
pub open spec fn death_label(exit_code: Option<i32>) -> Seq<char> {
    if exit_code is Some {
        "Exited"@
    } else {
        "Stopped"@
    }
}

/// The registry after one monitor tick: the record is removed exactly when
/// it was present and the probe round decisively pronounced the tree dead.
pub open spec fn tick_registry(
    pre: Map<Seq<char>, ProcessInfo>,
    process_id: Seq<char>,
    parent_alive: Option<bool>,
    children_alive: Seq<Option<bool>>,
) -> Map<Seq<char>, ProcessInfo> {
    if pre.contains_key(process_id) && spec_verdict(parent_alive, children_alive)
        is Dead {
        pre.remove(process_id)
    } else {
        pre
    }
}

/// The controller: registry, bindings and hub under one owner.
pub struct ProcessController {
    registry: StrTable<ProcessInfo>,
    bindings: StrTable<String>,
    hub: NotificationHub,
    poll_interval_millis: u64,
}

impl ProcessController {
    /// The tracked processes, by process id.
    pub closed spec fn registry_map(&self) -> Map<Seq<char>, ProcessInfo> {
        self.registry@
    }

    /// The active application-to-process bindings.
    pub closed spec fn bindings_map(&self) -> Map<Seq<char>, String> {
        self.bindings@
    }

    /// The process ids whose status channel exists.
    pub closed spec fn hub_channel_ids(&self) -> Set<Seq<char>> {
        self.hub.channel_ids()
    }

    /// Whether the global count channel has been created.
    pub closed spec fn hub_has_count_channel(&self) -> bool {
        self.hub.has_count_channel()
    }

    /// The live-process count most recently published.
    pub closed spec fn hub_last_count(&self) -> usize {
        self.hub.last_count()
    }

    /// The interval, in milliseconds, monitor loops sleep between ticks.
    pub closed spec fn poll_interval(&self) -> u64 {
        self.poll_interval_millis
    }

    /// The controller's invariant: the tables are well formed; every
    /// binding points at a tracked process and no two applications bind the
    /// same process; every tracked record is still `Running` (death or stop
    /// removes the record rather than leaving an ended record behind); and
    /// the count last published equals the number of tracked processes.
    pub closed spec fn inv(&self) -> bool {
        &&& self.registry.wf()
        &&& self.bindings.wf()
        &&& self.hub.wf()
        &&& self.registry@.dom().finite()
        &&& forall|a: Seq<char>| #[trigger]
            self.bindings@.contains_key(a) ==> self.registry@.contains_key(self.bindings@[a]@)
        &&& forall|a1: Seq<char>, a2: Seq<char>|
            #![trigger self.bindings@[a1], self.bindings@[a2]]
            self.bindings@.contains_key(a1) && self.bindings@.contains_key(a2) && a1 != a2
                ==> self.bindings@[a1]@ != self.bindings@[a2]@
        &&& forall|p: Seq<char>| #[trigger]
            self.registry@.contains_key(p) ==> self.registry@[p].status
                == ProcessStatus::Running
        &&& self.hub.last_count() == self.registry@.dom().len()
    }

    /// A controller with nothing tracked. `channel_capacity` bounds each
    /// broadcast channel's buffer; `poll_interval_millis` is the interval
    /// monitor loops should sleep between ticks.
    pub fn new(channel_capacity: usize, poll_interval_millis: u64) -> (r: Self)
        requires
            0 < channel_capacity <= usize::MAX / 2,
        ensures
            r.inv(),
            r.registry_map() == Map::<Seq<char>, ProcessInfo>::empty(),
            r.bindings_map() == Map::<Seq<char>, String>::empty(),
            r.hub_channel_ids() == Set::<Seq<char>>::empty(),
            !r.hub_has_count_channel(),
            r.poll_interval() == poll_interval_millis,
    {
        let r = ProcessController {
            registry: StrTable::new(),
            bindings: StrTable::new(),
            hub: NotificationHub::new(channel_capacity),
            poll_interval_millis,
        };
        proof {
            assert(r.registry@.dom() =~= Set::<Seq<char>>::empty());
        }
        r
    }

    /// The interval, in milliseconds, monitor loops sleep between ticks.
    pub fn poll_interval_millis(&self) -> (r: u64)
        ensures
            r == self.poll_interval(),
    {
        self.poll_interval_millis
    }

    /// Gate a launch before any OS work. The actor must be authenticated,
    /// the application id must have resolved to an executable path, and the
    /// path must exist on disk; the caller consults the session store, the
    /// application store and the filesystem and hands the answers in. On
    /// success the path to spawn is returned; on failure nothing has been
    /// registered and no monitor started.
    pub fn validate_launch(
        &self,
        authenticated: bool,
        resolved_path: Option<String>,
        path_exists: bool,
    ) -> (r: Result<String, ControlError>)
        ensures
            r is Ok <==> (authenticated && resolved_path is Some && path_exists),
            r matches Ok(path) ==> resolved_path matches Some(p) && path == p,
            !authenticated ==> r == Err::<String, ControlError>(ControlError::Unauthorized),
            authenticated && resolved_path is None ==> r == Err::<String, ControlError>(
                ControlError::NotFound,
            ),
            authenticated && resolved_path is Some && !path_exists ==> r == Err::<
                String,
                ControlError,
            >(ControlError::InvalidTarget),
    {
        if !authenticated {
            return Err(ControlError::Unauthorized);
        }
        match resolved_path {
            None => Err(ControlError::NotFound),
            Some(path) => if path_exists {
                Ok(path)
            } else {
                Err(ControlError::InvalidTarget)
            },
        }
    }

    /// Report a tracked process's status. Reads only the registry and never
    /// blocks on OS calls; an unknown id is the one case that surfaces
    /// `NotFound`.
    pub fn status(&self, process_id: &String) -> (r: Result<ProcessStatusResponse,
        ControlError>)
        requires
            self.inv(),
        ensures
            match r {
                Ok(resp) => self.registry_map().contains_key(process_id@) && resp.pid
                    == self.registry_map()[process_id@].pid && resp.status@ == status_label(
                    self.registry_map()[process_id@].status,
                ) && resp.exit_code == self.registry_map()[process_id@].exit_code,
                Err(e) => e == ControlError::NotFound && !self.registry_map().contains_key(
                    process_id@,
                ),
            },
    {
        match self.registry.get(process_id) {
            Some(info) => Ok(
                ProcessStatusResponse {
                    status: info.status.label().to_owned(),
                    pid: info.pid,
                    exit_code: info.exit_code,
                },
            ),
            None => Err(ControlError::NotFound),
        }
    }

    /// The number of processes currently tracked.
    pub fn process_count(&self) -> (r: usize)
        requires
            self.inv(),
        ensures
            r == self.registry_map().dom().len(),
    {
        self.registry.len()
    }

    /// Record a successful spawn: insert the process record (status
    /// `Running`), bind the application to it — overwriting, not
    /// accumulating, any binding a relaunch supersedes — and publish the new
    /// live-process count. The caller then starts one monitor loop for this
    /// process id. The process id is fresh: it identifies one tracked
    /// launch, so it cannot already be in the registry.
    pub fn register_launch(
        &mut self,
        application_id: &String,
        process_id: String,
        os_pid: u32,
        child_os_pids: Vec<u32>,
    )
        requires
            old(self).inv(),
            !old(self).registry_map().contains_key(process_id@),
        ensures
            final(self).inv(),
            final(self).registry_map() == old(self).registry_map().insert(
                process_id@,
                (ProcessInfo {
                    pid: os_pid,
                    child_pids: child_os_pids,
                    status: ProcessStatus::Running,
                    exit_code: None,
                }),
            ),
            final(self).bindings_map() == old(self).bindings_map().insert(
                application_id@,
                process_id,
            ),
            final(self).registry_map().dom().len() == old(self).registry_map().dom().len() + 1,
            final(self).hub_last_count() == final(self).registry_map().dom().len(),
            final(self).hub_channel_ids() == old(self).hub_channel_ids(),
            final(self).hub_has_count_channel() == old(self).hub_has_count_channel(),
            final(self).poll_interval() == old(self).poll_interval(),
    {
        let info = ProcessInfo {
            pid: os_pid,
            child_pids: child_os_pids,
            status: ProcessStatus::Running,
            exit_code: None,
        };
        self.registry.insert(process_id.clone(), info);
        self.bindings.insert(application_id.clone(), process_id);
        let count = self.registry.len();
        let _ = self.hub.publish_count(count);
        proof {
            assert(self.registry@.dom() =~= old(self).registry@.dom().insert(process_id@));
            assert forall|a1: Seq<char>, a2: Seq<char>|
                self.bindings@.contains_key(a1) && self.bindings@.contains_key(a2) && a1
                    != a2 implies #[trigger] self.bindings@[a1]@ != #[trigger] self.bindings@[a2]@ by {
                if a1 != application_id@ && a2 != application_id@ {
                    assert(old(self).bindings@.contains_key(a1));
                    assert(old(self).bindings@.contains_key(a2));
                }
            }
        }
    }

    /// Resolve the target, remove its record and its application binding
    /// together, publish the new count, and hand back the pids to
    /// terminate. The removal is the authoritative stop signal: the
    /// process's monitor observes the absence on its next tick and
    /// terminates itself. An identifier that resolves to nothing tracked is
    /// the `NotFound` case — in particular, a second stop of the same
    /// process.
    pub fn stop(&mut self, target: &StopTarget) -> (r: Result<StopPlan, ControlError>)
        requires
            old(self).inv(),
        ensures
            final(self).inv(),
            r is Ok <==> (match spec_resolve(old(self).bindings_map(), *target) {
                Some(pid) => old(self).registry_map().contains_key(pid),
                None => false,
            }),
            match r {
                Ok(plan) => {
                    &&& spec_resolve(old(self).bindings_map(), *target) == Some(
                        plan.process_id@,
                    )
                    &&& old(self).registry_map().contains_key(plan.process_id@)
                    &&& plan.os_pid == old(self).registry_map()[plan.process_id@].pid
                    &&& plan.child_os_pids@ == old(self).registry_map()[plan.process_id@]
                        .child_pids@
                    &&& final(self).registry_map() == old(self).registry_map().remove(
                        plan.process_id@,
                    )
                    &&& forall|a: Seq<char>|
                        #[trigger] final(self).bindings_map().contains_key(a) <==> (old(self).bindings_map().contains_key(a) && old(self).bindings_map()[a]@
                            != plan.process_id@)
                    &&& forall|a: Seq<char>|
                        #[trigger] final(self).bindings_map().contains_key(a) ==> final(self).bindings_map()[a] == old(self).bindings_map()[a]
                    &&& final(self).registry_map().dom().len() + 1 == old(self).registry_map().dom().len()
                    &&& final(self).hub_last_count() == final(self).registry_map().dom().len()
                    &&& final(self).hub_channel_ids() == old(self).hub_channel_ids()
                    &&& final(self).hub_has_count_channel() == old(self).hub_has_count_channel()
                },
                Err(e) => {
                    &&& e == ControlError::NotFound
                    &&& final(self).registry_map() == old(self).registry_map()
                    &&& final(self).bindings_map() == old(self).bindings_map()
                    &&& final(self).hub_channel_ids() == old(self).hub_channel_ids()
                    &&& final(self).hub_last_count() == old(self).hub_last_count()
                    &&& final(self).hub_has_count_channel() == old(self).hub_has_count_channel()
                },
            },
            final(self).poll_interval() == old(self).poll_interval(),
    {
        let process_id: String = match target {
            StopTarget::Process(p) => p.clone(),
            StopTarget::Application(a) => match self.bindings.get(a) {
                Some(p) => p.clone(),
                None => {
                    return Err(ControlError::NotFound);
                },
            },
        };
        let removed = self.registry.remove(&process_id);
        match removed {
            None => Err(ControlError::NotFound),
            Some(info) => {
                let unbound = self.bindings.remove_by_value(&process_id);
                let count = self.registry.len();
                let _ = self.hub.publish_count(count);
                proof {
                    assert(self.registry@.dom() =~= old(self).registry@.dom().remove(
                        process_id@,
                    ));
                    if unbound is Some {
                        let k = unbound->Some_0@;
                        assert forall|a: Seq<char>|
                            #[trigger] self.bindings@.contains_key(a) <==> (old(self).bindings@.contains_key(a) && old(self).bindings@[a]@
                                != process_id@) by {
                            if old(self).bindings@.contains_key(a) && a != k {
                                assert(old(self).bindings@[a]@ != old(self).bindings@[k]@);
                            }
                        }
                    }
                }
                Ok(
                    StopPlan {
                        process_id,
                        os_pid: info.pid,
                        child_os_pids: info.child_pids,
                    },
                )
            },
        }
    }

    /// Subscribe to a process's status events. The registry is checked
    /// first, so no channel is ever created for a process that is not
    /// tracked.
    pub fn subscribe(&mut self, process_id: &String) -> (r: Result<Receiver<String>,
        ControlError>)
        requires
            old(self).inv(),
        ensures
            final(self).inv(),
            r is Ok <==> old(self).registry_map().contains_key(process_id@),
            r is Err ==> r == Err::<Receiver<String>, ControlError>(ControlError::NotFound),
            final(self).registry_map() == old(self).registry_map(),
            final(self).bindings_map() == old(self).bindings_map(),
            r is Ok ==> final(self).hub_channel_ids() == old(self).hub_channel_ids().insert(
                process_id@,
            ),
            r is Err ==> final(self).hub_channel_ids() == old(self).hub_channel_ids(),
            final(self).hub_has_count_channel() == old(self).hub_has_count_channel(),
            final(self).hub_last_count() == old(self).hub_last_count(),
            final(self).poll_interval() == old(self).poll_interval(),
    {
        if self.registry.contains_key(process_id) {
            Ok(self.hub.subscribe(process_id))
        } else {
            Err(ControlError::NotFound)
        }
    }

    /// Subscribe to the live-process count. The returned baseline is the
    /// number of processes tracked right now: a late subscriber always
    /// starts from the current count, even if no count change happens
    /// afterwards, and then receives each published count.
    pub fn subscribe_count(&mut self) -> (r: (usize, Receiver<usize>))
        requires
            old(self).inv(),
        ensures
            final(self).inv(),
            r.0 == old(self).registry_map().dom().len(),
            final(self).hub_has_count_channel(),
            final(self).registry_map() == old(self).registry_map(),
            final(self).bindings_map() == old(self).bindings_map(),
            final(self).hub_channel_ids() == old(self).hub_channel_ids(),
            final(self).hub_last_count() == old(self).hub_last_count(),
            final(self).poll_interval() == old(self).poll_interval(),
    {
        let count = self.registry.len();
        let rx = self.hub.subscribe_count();
        (count, rx)
    }

    /// The probe targets for one monitor tick: the primary pid and the
    /// known child pids of a tracked process, or nothing if the record is
    /// gone.
    pub fn monitor_poll(&self, process_id: &String) -> (r: Option<(u32, Vec<u32>)>)
        requires
            self.inv(),
        ensures
            match r {
                Some(t) => self.registry_map().contains_key(process_id@) && t.0
                    == self.registry_map()[process_id@].pid && t.1@
                    == self.registry_map()[process_id@].child_pids@,
                None => !self.registry_map().contains_key(process_id@),
            },
    {
        match self.registry.get(process_id) {
            Some(info) => Some((info.pid, copy_pids(&info.child_pids))),
            None => None,
        }
    }

    /// Replace a tracked process's known descendants with the result of a
    /// fresh discovery pass. A failed discovery (`None`) changes nothing:
    /// the previous snapshot is kept until the next pass. The rest of the
    /// record — pid, status, exit code — is untouched.
    pub fn refresh_children(&mut self, process_id: &String, discovered: Option<Vec<u32>>)
        requires
            old(self).inv(),
        ensures
            final(self).inv(),
            match discovered {
                Some(pids) => final(self).registry_map() == if old(self).registry_map().contains_key(process_id@) {
                    old(self).registry_map().insert(
                        process_id@,
                        (ProcessInfo {
                            pid: old(self).registry_map()[process_id@].pid,
                            child_pids: pids,
                            status: old(self).registry_map()[process_id@].status,
                            exit_code: old(self).registry_map()[process_id@].exit_code,
                        }),
                    )
                } else {
                    old(self).registry_map()
                },
                None => final(self).registry_map() == old(self).registry_map(),
            },
            final(self).bindings_map() == old(self).bindings_map(),
            final(self).hub_channel_ids() == old(self).hub_channel_ids(),
            final(self).hub_has_count_channel() == old(self).hub_has_count_channel(),
            final(self).hub_last_count() == old(self).hub_last_count(),
            final(self).poll_interval() == old(self).poll_interval(),
    {
        match discovered {
            None => {},
            Some(pids) => {
                let removed = self.registry.remove(process_id);
                match removed {
                    None => {},
                    Some(info) => {
                        let updated = ProcessInfo {
                            pid: info.pid,
                            child_pids: pids,
                            status: info.status,
                            exit_code: info.exit_code,
                        };
                        self.registry.insert(process_id.clone(), updated);
                        proof {
                            assert(self.registry@ =~= old(self).registry@.insert(
                                process_id@,
                                self.registry@[process_id@],
                            ));
                            assert(self.registry@.dom() =~= old(self).registry@.dom());
                        }
                    },
                }
            },
        }
    }

    /// One monitoring decision for a tracked process, from the results of
    /// this tick's probes. If the record is already gone, the process was
    /// explicitly removed: a final "Stopped" is published and the monitor
    /// detaches. A decisive all-dead probe round removes the record and its
    /// application binding, publishes the new count and then the death
    /// event. Anything else — an alive answer, or a probe failure that left
    /// liveness undeterminable — changes nothing and is retried next tick.
    pub fn monitor_tick(
        &mut self,
        process_id: &String,
        parent_alive: Option<bool>,
        children_alive: &Vec<Option<bool>>,
        observed_exit_code: Option<i32>,
    ) -> (r: TickOutcome)
        requires
            old(self).inv(),
        ensures
            final(self).inv(),
            final(self).registry_map() == tick_registry(
                old(self).registry_map(),
                process_id@,
                parent_alive,
                children_alive@,
            ),
            r is Detached <==> !old(self).registry_map().contains_key(process_id@),
            old(self).registry_map().contains_key(process_id@) ==> (r is Ended
                <==> spec_verdict(parent_alive, children_alive@) is Dead),
            r matches TickOutcome::Ended(event) ==> event@ == death_label(observed_exit_code),
            r is KeepWatching ==> final(self).bindings_map() == old(self).bindings_map()
                && final(self).hub_channel_ids() == old(self).hub_channel_ids() && final(self).hub_last_count() == old(self).hub_last_count(),
            r is Detached ==> final(self).bindings_map() == old(self).bindings_map() && final(self).hub_channel_ids() == old(self).hub_channel_ids().insert(process_id@) && final(self).hub_last_count() == old(self).hub_last_count(),
            r is Ended ==> (forall|a: Seq<char>|
                #[trigger] final(self).bindings_map().contains_key(a) <==> (old(self).bindings_map().contains_key(a) && old(self).bindings_map()[a]@
                    != process_id@)) && (forall|a: Seq<char>|
                #[trigger] final(self).bindings_map().contains_key(a) ==> final(self).bindings_map()[a] == old(self).bindings_map()[a]) && final(self).hub_channel_ids() == old(self).hub_channel_ids().insert(process_id@) && final(self).hub_last_count() == final(self).registry_map().dom().len(),
            final(self).hub_has_count_channel() == old(self).hub_has_count_channel(),
            final(self).poll_interval() == old(self).poll_interval(),
    {
        if !self.registry.contains_key(process_id) {
            let _ = self.hub.publish(process_id, "Stopped");
            return TickOutcome::Detached;
        }
        let verdict = liveness_verdict(parent_alive, children_alive);
        match verdict {
            LivenessVerdict::Alive => TickOutcome::KeepWatching,
            LivenessVerdict::Unknown => TickOutcome::KeepWatching,
            LivenessVerdict::Dead => {
                let _ = self.registry.remove(process_id);
                let unbound = self.bindings.remove_by_value(process_id);
                let count = self.registry.len();
                let _ = self.hub.publish_count(count);
                let event: &'static str = if observed_exit_code.is_some() {
                    "Exited"
                } else {
                    "Stopped"
                };
                let _ = self.hub.publish(process_id, event);
                proof {
                    assert(self.registry@.dom() =~= old(self).registry@.dom().remove(
                        process_id@,
                    ));
                    if unbound is Some {
                        let k = unbound->Some_0@;
                        assert forall|a: Seq<char>|
                            #[trigger] self.bindings@.contains_key(a) <==> (old(self).bindings@.contains_key(a) && old(self).bindings@[a]@
                                != process_id@) by {
                            if old(self).bindings@.contains_key(a) && a != k {
                                assert(old(self).bindings@[a]@ != old(self).bindings@[k]@);
                            }
                        }
                    }
                }
                TickOutcome::Ended(event.to_owned())
            },
        }
    }
}

/// A tracked process always reports `Running`: its one transition out of
/// `Running` coincides with the removal of its record, after which a status
/// query reports `NotFound` — an ended record is never left behind.
pub proof fn lemma_tracked_means_running(c: &ProcessController, process_id: Seq<char>)
    requires
        c.inv(),
        c.registry_map().contains_key(process_id),
    ensures
        c.registry_map()[process_id].status == ProcessStatus::Running,
{
}

/// Once a process has left the registry it never reappears through
/// monitoring: a tick leaves the registry's domain a subset of what it was,
/// so an identifier that was absent before a tick is absent after it.
pub proof fn lemma_tick_never_revives(
    pre: Map<Seq<char>, ProcessInfo>,
    process_id: Seq<char>,
    parent_alive: Option<bool>,
    children_alive: Seq<Option<bool>>,
    x: Seq<char>,
)
    ensures
        !pre.contains_key(x) ==> !tick_registry(
            pre,
            process_id,
            parent_alive,
            children_alive,
        ).contains_key(x),
        tick_registry(pre, process_id, parent_alive, children_alive).dom().subset_of(
            pre.dom(),
        ),
{
}

/// A probe failure on a tick never costs a process its record: when the
/// parent probe or any child probe errored, the tick removes nothing; only
/// a decisive all-dead round does.
pub proof fn lemma_probe_error_keeps_record(
    pre: Map<Seq<char>, ProcessInfo>,
    process_id: Seq<char>,
    parent_alive: Option<bool>,
    children_alive: Seq<Option<bool>>,
)
    requires
        parent_alive is None || (exists|i: int|
            0 <= i < children_alive.len() && children_alive[i] is None),
    ensures
        tick_registry(pre, process_id, parent_alive, children_alive) == pre,
{
    crate::probe::lemma_death_needs_decisive_probes(parent_alive, children_alive);
    if spec_verdict(parent_alive, children_alive) is Dead {
        if parent_alive is None {
        } else {
            let i = choose|i: int|
                0 <= i < children_alive.len() && children_alive[i] is None;
            assert(children_alive[i] == Some(false));
        }
    }
}

/// Stopping and natural death remove a process's record and its application
/// binding together: under the invariant, which every operation preserves,
/// no binding dangles — every bound process id is still tracked.
pub proof fn lemma_no_dangling_binding(c: &ProcessController)
    requires
        c.inv(),
    ensures
        forall|a: Seq<char>| #[trigger]
            c.bindings_map().contains_key(a) ==> c.registry_map().contains_key(
                c.bindings_map()[a]@,
            ),
{
}

/// A late subscriber's baseline is never stale: the count last published on
/// the global channel always equals the number of tracked processes,
/// because every registry insertion and removal publishes the new count.
pub proof fn lemma_count_baseline_current(c: &ProcessController)
    requires
        c.inv(),
    ensures
        c.hub_last_count() == c.registry_map().dom().len(),
{
}

/// A plain copy of a pid list.
fn copy_pids(src: &Vec<u32>) -> (r: Vec<u32>)
    ensures
        r@ == src@,
{
    let n: usize = src.len();
    let mut r: Vec<u32> = Vec::new();
    let mut i: usize = 0;
    while i < n
        invariant
            n == src@.len(),
            i <= n,
            r@ == src@.subrange(0, i as int),
        decreases n - i,
    {
        r.push(src[i]);
        proof {
            assert(r@ =~= src@.subrange(0, i + 1 as int));
        }
        i = i + 1;
    }
    proof {
        assert(src@.subrange(0, n as int) =~= src@);
    }
    r
}

} // verus!
