//! The supervisor's answer to "make sure group G runs", as a sequence of steps:
//! each step takes what the last outside action reported and says what to do next.

use vstd::prelude::*;
use vstd::string::*;
use crate::args::{arg_views, group_server_args, launch_args};
use crate::group_id::{
    is_valid_group_id, lemma_valid_group_id_bytes, lemma_valid_group_id_shard, shard_len, shard_of,
    validate_group_id,
};
use crate::messages::{EnsureGroupResponse, ErrorReply};
use crate::registry::{after_insert, after_remove, describes, position_of, unique_ids, GroupRegistry, GroupSlot};
use crate::reply::internal_error;

verus! {

/// Where a request stands.
#[derive(PartialEq, Eq, Clone, Copy, Debug)]
pub enum EnsureStage {
    /// A process is registered for the group; its liveness is being checked.
    Inspecting,
    /// A new process is needed; a port is being found for it.
    AllocatingPort,
    /// The database directory is being created.
    PreparingDirectory { port: u16 },
    /// The process is being started.
    Spawning { port: u16 },
    /// The request has its answer.
    Finished,
}

/// What the supervisor does next.
pub enum EnsureAction {
    /// Check whether the process registered at `index` still runs, then call
    /// `on_process_status`.
    InspectProcess { index: usize },
    /// Find a free loopback port, then call `on_port`.
    AllocatePort,
    /// Create, under the data root, the directories `directories`, each inside the
    /// one before; the database is the file `file_name` in the last of them. Then
    /// call `on_directory` with the database's path.
    PrepareDirectory { directories: Vec<String>, file_name: String },
    /// Start the group program with the arguments `args`, then call `on_spawned`.
    Spawn { args: Vec<String> },
    /// The new process is registered; wait until it accepts connections on `port`
    /// (see `ReadinessProbe`), then answer with `response`.
    AwaitReady { port: u16, response: EnsureGroupResponse },
    /// Answer the request.
    Reply(Result<EnsureGroupResponse, ErrorReply>),
}

/// One request to make sure a group process runs.
pub struct EnsureFlow {
    pub group_id: String,
    /// How the group program is named in error messages.
    pub group_binary: String,
    pub idle_secs: u64,
    pub stage: EnsureStage,
}

/// The name of every group's database file.
pub open spec fn db_file_name() -> Seq<char> {
    "game.db"@
}

/// The message of a failed start of the group program.
pub open spec fn spawn_failure_text(group_binary: Seq<char>) -> Seq<char> {
    "failed to spawn "@ + group_binary
}

impl EnsureFlow {
    /// A request in progress names a valid group.
    pub open spec fn in_progress(&self) -> bool {
        &&& is_valid_group_id(self.group_id@)
        &&& self.stage != EnsureStage::Finished
    }

    /// Starts a request: an invalid group identifier is refused at once (400), a
    /// registered group has its process checked, and any other group gets a new
    /// process.
    pub fn begin<H>(group_id: String, group_binary: String, idle_secs: u64, registry: &GroupRegistry<H>) -> (r: (
        EnsureFlow,
        EnsureAction,
    ))
        requires
            unique_ids(registry@),
        ensures
            r.0.group_id@ == group_id@,
            r.0.group_binary@ == group_binary@,
            r.0.idle_secs == idle_secs,
            !is_valid_group_id(group_id@) ==> {
                &&& r.0.stage == EnsureStage::Finished
                &&& r.1 matches EnsureAction::Reply(Err(e))
                &&& e.status == 400
                &&& e.message@ == "invalid group id"@
            },
            is_valid_group_id(group_id@) ==> match position_of(registry@, group_id@) {
                Some(i) => {
                    &&& r.0.stage == EnsureStage::Inspecting
                    &&& r.1 matches EnsureAction::InspectProcess { index }
                    &&& index == i
                },
                None => {
                    &&& r.0.stage == EnsureStage::AllocatingPort
                    &&& r.1 is AllocatePort
                },
            },
    {
        if let Err(e) = validate_group_id(group_id.as_str()) {
            let flow = EnsureFlow { group_id, group_binary, idle_secs, stage: EnsureStage::Finished };
            return (flow, EnsureAction::Reply(Err(e)));
        }
        match registry.find(group_id.as_str()) {
            Some(index) => {
                let flow = EnsureFlow { group_id, group_binary, idle_secs, stage: EnsureStage::Inspecting };
                (flow, EnsureAction::InspectProcess { index })
            },
            None => {
                let flow = EnsureFlow {
                    group_id,
                    group_binary,
                    idle_secs,
                    stage: EnsureStage::AllocatingPort,
                };
                (flow, EnsureAction::AllocatePort)
            },
        }
    }

    /// The registered process was checked: a running one is the answer, as
    /// registered, and the table stays as it is; a stopped one (or one that could
    /// not be checked) is taken out of the table and replaced.
    pub fn on_process_status<H>(&mut self, registry: &mut GroupRegistry<H>, alive: bool) -> (a: EnsureAction)
        requires
            old(self).in_progress(),
            old(self).stage == EnsureStage::Inspecting,
            unique_ids(old(registry)@),
            position_of(old(registry)@, old(self).group_id@) is Some,
        ensures
            unique_ids(final(registry)@),
            final(self).group_id == old(self).group_id,
            final(self).group_binary == old(self).group_binary,
            final(self).idle_secs == old(self).idle_secs,
            alive ==> {
                &&& final(registry)@ == old(registry)@
                &&& final(self).stage == EnsureStage::Finished
                &&& a matches EnsureAction::Reply(Ok(resp))
                &&& describes(resp, old(registry)@[position_of(old(registry)@, old(self).group_id@)->0])
            },
            !alive ==> {
                &&& final(registry)@ == after_remove(old(registry)@, old(self).group_id@)
                &&& final(self).in_progress()
                &&& final(self).stage == EnsureStage::AllocatingPort
                &&& a is AllocatePort
            },
    {
        if alive {
            let index = match registry.find(self.group_id.as_str()) {
                Some(i) => i,
                None => {
                    assert(false);
                    0
                },
            };
            self.stage = EnsureStage::Finished;
            EnsureAction::Reply(Ok(registry.describe(index)))
        } else {
            let _stopped = registry.remove(self.group_id.as_str());
            self.stage = EnsureStage::AllocatingPort;
            EnsureAction::AllocatePort
        }
    }

    /// A port was sought: without one the answer is a 500 with the failure's
    /// message; with one, the database directory `<shard>/<group>` comes next.
    pub fn on_port(&mut self, port: Result<u16, String>) -> (a: EnsureAction)
        requires
            old(self).in_progress(),
            old(self).stage == EnsureStage::AllocatingPort,
        ensures
            final(self).group_id == old(self).group_id,
            final(self).group_binary == old(self).group_binary,
            final(self).idle_secs == old(self).idle_secs,
            match port {
                Err(m) => {
                    &&& final(self).stage == EnsureStage::Finished
                    &&& a matches EnsureAction::Reply(Err(e))
                    &&& e.status == 500
                    &&& e.message@ == m@
                },
                Ok(p) => {
                    &&& final(self).in_progress()
                    &&& final(self).stage == EnsureStage::PreparingDirectory { port: p }
                    &&& a matches EnsureAction::PrepareDirectory { directories, file_name }
                    &&& arg_views(directories@) == seq![
                        old(self).group_id@.take(shard_len(old(self).group_id@.len()) as int),
                        old(self).group_id@,
                    ]
                    &&& file_name@ == db_file_name()
                },
            },
    {
        match port {
            Err(message) => {
                self.stage = EnsureStage::Finished;
                EnsureAction::Reply(Err(internal_error(message)))
            },
            Ok(p) => {
                proof {
                    lemma_valid_group_id_bytes(self.group_id@);
                }
                let shard = shard_of(self.group_id.as_str());
                proof {
                    lemma_valid_group_id_shard(self.group_id@, shard@);
                }
                let mut directories: Vec<String> = Vec::new();
                directories.push(shard);
                directories.push(self.group_id.clone());
                assert(arg_views(directories@) =~= seq![
                    self.group_id@.take(shard_len(self.group_id@.len()) as int),
                    self.group_id@,
                ]);
                self.stage = EnsureStage::PreparingDirectory { port: p };
                EnsureAction::PrepareDirectory { directories, file_name: String::from_str("game.db") }
            },
        }
    }

    /// The database directory was prepared: on failure the answer is a 500 with
    /// the failure's message; otherwise the group program is started with the
    /// group, the database path, the port and the idle timeout.
    pub fn on_directory(&mut self, db_path: Result<String, String>) -> (a: EnsureAction)
        requires
            old(self).in_progress(),
            old(self).stage is PreparingDirectory,
        ensures
            final(self).group_id == old(self).group_id,
            final(self).group_binary == old(self).group_binary,
            final(self).idle_secs == old(self).idle_secs,
            match db_path {
                Err(m) => {
                    &&& final(self).stage == EnsureStage::Finished
                    &&& a matches EnsureAction::Reply(Err(e))
                    &&& e.status == 500
                    &&& e.message@ == m@
                },
                Ok(path) => {
                    &&& final(self).in_progress()
                    &&& final(self).stage == EnsureStage::Spawning { port: old(self).stage->PreparingDirectory_port }
                    &&& a matches EnsureAction::Spawn { args }
                    &&& arg_views(args@) == launch_args(
                        old(self).group_id@,
                        path@,
                        old(self).stage->PreparingDirectory_port,
                        old(self).idle_secs,
                    )
                },
            },
    {
        let port = match self.stage {
            EnsureStage::PreparingDirectory { port } => port,
            _ => {
                assert(false);
                0
            },
        };
        match db_path {
            Err(message) => {
                self.stage = EnsureStage::Finished;
                EnsureAction::Reply(Err(internal_error(message)))
            },
            Ok(path) => {
                let args = group_server_args(self.group_id.as_str(), path.as_str(), port, self.idle_secs);
                self.stage = EnsureStage::Spawning { port };
                EnsureAction::Spawn { args }
            },
        }
    }

    /// The group program was started or not: a failed start is answered with a
    /// 500 naming the program; a started process is registered for the group with
    /// its port and process id (in place of any entry the group still had), and
    /// the supervisor then waits for it to accept connections.
    pub fn on_spawned<H>(&mut self, registry: &mut GroupRegistry<H>, spawned: Result<(H, Option<u32>), ()>) -> (a: EnsureAction)
        requires
            old(self).in_progress(),
            old(self).stage is Spawning,
            unique_ids(old(registry)@),
        ensures
            unique_ids(final(registry)@),
            final(self).group_id == old(self).group_id,
            final(self).stage == EnsureStage::Finished,
            match spawned {
                Err(_) => {
                    &&& final(registry)@ == old(registry)@
                    &&& a matches EnsureAction::Reply(Err(e))
                    &&& e.status == 500
                    &&& e.message@ == spawn_failure_text(old(self).group_binary@)
                },
                Ok((handle, pid)) => {
                    &&& final(registry)@ == after_insert(
                        old(registry)@,
                        GroupSlot {
                            group_id: old(self).group_id@,
                            port: old(self).stage->Spawning_port,
                            pid,
                            handle,
                        },
                    )
                    &&& a matches EnsureAction::AwaitReady { port, response }
                    &&& port == old(self).stage->Spawning_port
                    &&& response.group_id@ == old(self).group_id@
                    &&& response.port == port
                    &&& response.pid == pid
                },
            },
    {
        let port = match self.stage {
            EnsureStage::Spawning { port } => port,
            _ => {
                assert(false);
                0
            },
        };
        self.stage = EnsureStage::Finished;
        match spawned {
            Err(_) => {
                let message = String::from_str("failed to spawn ").concat(self.group_binary.as_str());
                EnsureAction::Reply(Err(internal_error(message)))
            },
            Ok((handle, pid)) => {
                registry.insert(self.group_id.clone(), port, pid, handle);
                let response = EnsureGroupResponse { group_id: self.group_id.clone(), port, pid };
                EnsureAction::AwaitReady { port, response }
            },
        }
    }
}

} // verus!
