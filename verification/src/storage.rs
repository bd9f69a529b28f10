//! The keyed store: typed access to the contract's persistent storage.
//!
//! Every read and write of the registry goes through the operations of this
//! module. They act on a [`Ledger`], the one handle through which an
//! invocation of the contract reaches its storage, and what they do is
//! stated over its view, a [`LedgerState`]: a counter, a map of projects and
//! an optional oracle. Each operation runs inside an invocation that the host
//! serves, which its `requires` states as [`Ledger::ready`], and leaves the
//! host so.

use crate::host::{
    host_ready, ledger_timestamp, on_host, persistent_addresses, persistent_counts,
    persistent_get_address, persistent_get_count, persistent_get_project, persistent_projects,
    persistent_set_address, persistent_set_count, persistent_set_project, Slot, StoredProject,
    ADDRESS_SLOTS, COUNT_SLOTS, PROJECT_SLOTS,
};
use crate::types::{Project, ProjectStatus, RegistryError};
use soroban_sdk::{Address, Env};
use vstd::prelude::*;

verus! {

/// Keys of the contract's persistent storage.
#[derive(Clone, Copy, Debug, PartialEq, Eq, Structural)]
pub enum DataKey {
    /// The counter from which project ids are issued.
    ProjectCount,
    /// The project with the given id.
    Project(u64),
    /// The identity of the trusted oracle.
    OracleKey,
}

impl DataKey {
    /// The storage slot of a key: the category of the values kept under it,
    /// and the project id where the key carries one.
    pub open spec fn slot(self) -> Slot {
        match self {
            DataKey::ProjectCount => (COUNT_SLOTS, 0u64),
            DataKey::Project(id) => (PROJECT_SLOTS, id),
            DataKey::OracleKey => (ADDRESS_SLOTS, 0u64),
        }
    }

    /// Computes the storage slot of a key.
    pub fn to_slot(&self) -> (slot: Slot)
        ensures
            slot == self.slot(),
    {
        match self {
            DataKey::ProjectCount => (COUNT_SLOTS, 0u64),
            DataKey::Project(id) => (PROJECT_SLOTS, *id),
            DataKey::OracleKey => (ADDRESS_SLOTS, 0u64),
        }
    }

    /// Two keys share a slot only if they are the same key: entries of
    /// different categories, or of different projects, never collide.
    pub proof fn lemma_slot_injective(a: DataKey, b: DataKey)
        ensures
            a.slot() == b.slot() <==> a == b,
    {
    }
}

/// The project that is stored as `stored` under the key of `id`.
pub open spec fn project_of(id: u64, stored: StoredProject) -> Project {
    Project {
        id,
        creator: stored.0,
        goal: stored.1,
        balance: stored.2,
        proof_hash: stored.3,
        deadline: stored.4,
        status: if stored.5 {
            ProjectStatus::Completed
        } else {
            ProjectStatus::Funding
        },
    }
}

/// The tuple that is stored for a project under the key of its id.
pub open spec fn stored_of(project: Project) -> StoredProject {
    (
        project.creator,
        project.goal,
        project.balance,
        project.proof_hash,
        project.deadline,
        project.status == ProjectStatus::Completed,
    )
}

/// Storing a project and reading it back under its id gives the same
/// project, field for field.
pub proof fn lemma_stored_round_trip(project: Project)
    ensures
        project_of(project.id, stored_of(project)) == project,
{
}

/// What the persistent storage of the contract holds, as the registry sees
/// it.
pub struct LedgerState {
    /// The id that the next registration receives; 0 while the counter is
    /// absent.
    pub next_id: u64,
    /// The stored projects, by id.
    pub projects: Map<u64, Project>,
    /// The configured oracle, `None` until one is set.
    pub oracle: Option<Address>,
}

impl LedgerState {
    /// The state of a ledger in which the contract has stored nothing yet.
    pub open spec fn empty() -> LedgerState {
        LedgerState { next_id: 0, projects: Map::empty(), oracle: None }
    }

    /// The state after the next id has been issued: the counter has advanced
    /// by one.
    pub open spec fn with_id_issued(self) -> LedgerState {
        LedgerState { next_id: (self.next_id + 1) as u64, ..self }
    }

    /// The state after `project` has been saved: it stands under its id, in
    /// place of whatever stood there.
    pub open spec fn with_project(self, project: Project) -> LedgerState {
        LedgerState { projects: self.projects.insert(project.id, project), ..self }
    }

    /// The state after `oracle` has been set.
    pub open spec fn with_oracle(self, oracle: Address) -> LedgerState {
        LedgerState { oracle: Some(oracle), ..self }
    }

    /// Every stored project carries the id under which it is stored, and
    /// that id has been issued: it lies below the counter.
    pub open spec fn well_formed(self) -> bool {
        forall|id: u64| #[trigger]
            self.projects.contains_key(id) ==> id < self.next_id && self.projects[id].id == id
    }

    /// The project under `id`, or `NotFound` where there is none.
    pub open spec fn lookup(self, id: u64) -> Result<Project, RegistryError> {
        if self.projects.contains_key(id) {
            Ok(self.projects[id])
        } else {
            Err(RegistryError::NotFound)
        }
    }

    /// The oracle, or `NotConfigured` where none has been set.
    pub open spec fn acting_oracle(self) -> Result<Address, RegistryError> {
        match self.oracle {
            Some(oracle) => Ok(oracle),
            None => Err(RegistryError::NotConfigured),
        }
    }
}

/// The state that the persistent storage behind a host handle stands for.
pub open spec fn ledger_state(env: Env) -> LedgerState {
    LedgerState {
        next_id: if persistent_counts(env).contains_key(DataKey::ProjectCount.slot()) {
            persistent_counts(env)[DataKey::ProjectCount.slot()]
        } else {
            0
        },
        projects: Map::new(
            |id: u64| persistent_projects(env).contains_key(DataKey::Project(id).slot()),
            |id: u64| project_of(id, persistent_projects(env)[DataKey::Project(id).slot()]),
        ),
        oracle: if persistent_addresses(env).contains_key(DataKey::OracleKey.slot()) {
            Some(persistent_addresses(env)[DataKey::OracleKey.slot()])
        } else {
            None
        },
    }
}

/// The handle through which one invocation of the contract reaches its
/// ledger.
///
/// An invocation makes one `Ledger` and passes it on by reference. The
/// handle inside is private and a `Ledger` cannot be copied, so every read
/// and write of the invocation goes through the same value, and what is known
/// of the storage after a write is known of the only handle there is.
pub struct Ledger {
    env: Env,
}

impl View for Ledger {
    type V = LedgerState;

    closed spec fn view(&self) -> LedgerState {
        ledger_state(self.env)
    }
}

impl Ledger {
    /// The host handle that the ledger holds.
    pub closed spec fn handle(&self) -> Env {
        self.env
    }

    /// Whether the host serves the calls of this invocation: `host_ready` of
    /// the handle.
    pub closed spec fn ready(&self) -> bool {
        host_ready(self.env)
    }

    /// Whether `address` is an address of the host behind this ledger:
    /// `on_host` of the handle.
    pub closed spec fn knows(&self, address: Address) -> bool {
        on_host(self.env, address)
    }

    /// What every write leaves in place: the host still serves the
    /// invocation, and every address that `before` knew is still known.
    pub open spec fn continues(&self, before: Ledger) -> bool {
        &&& self.ready()
        &&& forall|address: Address| before.knows(address) ==> #[trigger] self.knows(address)
    }

    /// Takes over the handle of an invocation. The handle given is the one
    /// through which the invocation reaches the storage from here on; no
    /// copy of it is to be used beside the ledger.
    pub fn new(env: Env) -> (ledger: Ledger)
        ensures
            ledger.handle() == env,
            ledger@ == ledger_state(env),
            ledger.ready() == host_ready(env),
            forall|address: Address| ledger.knows(address) == on_host(env, address),
    {
        Ledger { env }
    }

    /// Reads the ledger's clock: the close time of the current ledger, in
    /// seconds since the Unix epoch. Nothing is known of the value.
    pub fn timestamp(&self) -> u64
        requires
            self.ready(),
    {
        ledger_timestamp(&self.env)
    }

    /// On every ledger, the project found under an id carries that id.
    pub proof fn lemma_stored_under_own_id(self, id: u64)
        requires
            self@.projects.contains_key(id),
        ensures
            self@.projects[id].id == id,
    {
    }
}

/// Reads the counter: the id that the next registration will receive.
pub fn project_count(ledger: &Ledger) -> (count: u64)
    requires
        ledger.ready(),
    ensures
        count == ledger@.next_id,
{
    match persistent_get_count(&ledger.env, DataKey::ProjectCount.to_slot()) {
        Some(count) => count,
        None => 0,
    }
}

/// Issues the next project id: returns the counter's value and stores its
/// successor. An absent counter counts as 0.
pub fn get_and_increment_project_id(ledger: &mut Ledger) -> (id: u64)
    requires
        old(ledger).ready(),
        old(ledger)@.next_id < u64::MAX,
    ensures
        final(ledger).continues(*old(ledger)),
        id == old(ledger)@.next_id,
        final(ledger)@ == old(ledger)@.with_id_issued(),
{
    let current = project_count(ledger);
    persistent_set_count(&mut ledger.env, DataKey::ProjectCount.to_slot(), current + 1);
    current
}

/// Writes a project under its id, replacing whatever was stored there. The
/// creator has to be an address of the ledger's host.
pub fn save_project(ledger: &mut Ledger, project: &Project)
    requires
        old(ledger).ready(),
        old(ledger).knows(project.creator),
    ensures
        final(ledger).continues(*old(ledger)),
        final(ledger)@ == old(ledger)@.with_project(*project),
{
    let stored: StoredProject = (
        project.creator.clone(),
        project.goal,
        project.balance,
        project.proof_hash,
        project.deadline,
        match project.status {
            ProjectStatus::Completed => true,
            ProjectStatus::Funding => false,
        },
    );
    persistent_set_project(&mut ledger.env, DataKey::Project(project.id).to_slot(), &stored);
    proof {
        assert(ledger@.projects =~= old(ledger)@.projects.insert(project.id, *project));
    }
}

/// Reads the project stored under `id`. It carries that id, and its creator
/// is an address of the ledger's host.
pub fn load_project(ledger: &Ledger, id: u64) -> (outcome: Result<Project, RegistryError>)
    requires
        ledger.ready(),
    ensures
        outcome == ledger@.lookup(id),
        outcome matches Ok(project) ==> project.id == id && ledger.knows(project.creator),
{
    match persistent_get_project(&ledger.env, DataKey::Project(id).to_slot()) {
        Some(stored) => Ok(
            Project {
                id,
                creator: stored.0,
                goal: stored.1,
                balance: stored.2,
                proof_hash: stored.3,
                deadline: stored.4,
                status: if stored.5 {
                    ProjectStatus::Completed
                } else {
                    ProjectStatus::Funding
                },
            },
        ),
        None => Err(RegistryError::NotFound),
    }
}

/// Records `oracle` as the trusted oracle, replacing any earlier one. The
/// oracle has to be an address of the ledger's host.
pub fn set_oracle(ledger: &mut Ledger, oracle: &Address)
    requires
        old(ledger).ready(),
        old(ledger).knows(*oracle),
    ensures
        final(ledger).continues(*old(ledger)),
        final(ledger)@ == old(ledger)@.with_oracle(*oracle),
{
    persistent_set_address(&mut ledger.env, DataKey::OracleKey.to_slot(), oracle);
}

/// Reads the trusted oracle, an address of the ledger's host.
pub fn get_oracle(ledger: &Ledger) -> (outcome: Result<Address, RegistryError>)
    requires
        ledger.ready(),
    ensures
        outcome == ledger@.acting_oracle(),
        outcome matches Ok(oracle) ==> ledger.knows(oracle),
{
    match persistent_get_address(&ledger.env, DataKey::OracleKey.to_slot()) {
        Some(oracle) => Ok(oracle),
        None => Err(RegistryError::NotConfigured),
    }
}

} // verus!
