//! The rules of the registry, proved of the operations' specifications.
//!
//! The executable operations compute exactly `registration_outcome`,
//! `registration_state`, `verification_outcome`, `verification_state` and
//! `LedgerState::lookup`, and the operations of the keyed store leave exactly
//! `with_id_issued`, `with_project` and `with_oracle`; what is proved of
//! these here therefore holds of every run of the contract.

use crate::registry::{
    registration_check, registration_outcome, registration_state, verification_outcome,
    verification_state,
};
use crate::storage::LedgerState;
use crate::types::{Project, ProjectStatus, RegistryError};
use soroban_sdk::Address;
use vstd::prelude::*;

verus! {

/// One call of the registration: its arguments and the ledger time at which
/// it runs.
pub struct Registration {
    pub creator: Address,
    pub goal: i128,
    pub proof_hash: [u8; 32],
    pub deadline: u64,
    pub now: u64,
}

impl Registration {
    /// Whether the call passes the checks on goal and deadline.
    pub open spec fn admitted(self) -> bool {
        registration_check(self.goal, self.deadline, self.now) is Ok
    }

    /// What the call returns when it runs in `state`.
    pub open spec fn outcome(self, state: LedgerState) -> Result<Project, RegistryError> {
        registration_outcome(
            state,
            self.creator,
            self.goal,
            self.proof_hash,
            self.deadline,
            self.now,
        )
    }

    /// The state that the call leaves when it runs in `state`.
    pub open spec fn apply(self, state: LedgerState) -> LedgerState {
        registration_state(
            state,
            self.creator,
            self.goal,
            self.proof_hash,
            self.deadline,
            self.now,
        )
    }
}

/// How many of `calls` are admitted.
pub open spec fn admitted_count(calls: Seq<Registration>) -> nat
    decreases calls.len(),
{
    if calls.len() == 0 {
        0
    } else {
        admitted_count(calls.drop_last()) + if calls.last().admitted() {
            1nat
        } else {
            0nat
        }
    }
}

/// The state after `calls` have run in order, starting in `state`.
pub open spec fn state_after(state: LedgerState, calls: Seq<Registration>) -> LedgerState
    decreases calls.len(),
{
    if calls.len() == 0 {
        state
    } else {
        calls.last().apply(state_after(state, calls.drop_last()))
    }
}

/// A registration with a goal of zero or less is refused with `InvalidGoal`,
/// one with a positive goal and a deadline at or before the ledger time with
/// `InvalidDeadline`; every other registration is admitted. A refusal leaves
/// the state as it was.
pub proof fn lemma_registration_validates(state: LedgerState, call: Registration)
    ensures
        call.goal <= 0 ==> call.outcome(state) == Err::<Project, RegistryError>(
            RegistryError::InvalidGoal,
        ),
        call.goal > 0 && call.deadline <= call.now ==> call.outcome(state) == Err::<
            Project,
            RegistryError,
        >(RegistryError::InvalidDeadline),
        call.goal > 0 && call.deadline > call.now ==> call.outcome(state) is Ok,
        call.outcome(state) is Err ==> call.apply(state) == state,
{
}

/// An admitted registration returns a project with the next id, the given
/// creator, goal, hash and deadline, no balance, and the status `Funding`.
pub proof fn lemma_registration_creates(state: LedgerState, call: Registration)
    requires
        call.admitted(),
    ensures
        call.outcome(state) == Ok::<Project, RegistryError>(
            Project {
                id: state.next_id,
                creator: call.creator,
                goal: call.goal,
                balance: 0,
                proof_hash: call.proof_hash,
                deadline: call.deadline,
                status: ProjectStatus::Funding,
            },
        ),
{
}

/// The counter after a run of registrations has advanced by the number of
/// admitted calls.
pub proof fn lemma_counter_counts_admitted(state: LedgerState, calls: Seq<Registration>)
    requires
        state.next_id + admitted_count(calls) <= u64::MAX,
    ensures
        state_after(state, calls).next_id == state.next_id + admitted_count(calls),
    decreases calls.len(),
{
    if calls.len() > 0 {
        lemma_counter_counts_admitted(state, calls.drop_last());
    }
}

/// The number of admitted calls does not shrink as a run grows, and grows
/// with every admitted call.
pub proof fn lemma_admitted_count_grows(calls: Seq<Registration>, j: int, k: int)
    requires
        0 <= j <= k <= calls.len(),
    ensures
        admitted_count(calls.take(j)) <= admitted_count(calls.take(k)),
        j < k && calls[j].admitted() ==> admitted_count(calls.take(j)) < admitted_count(
            calls.take(k),
        ),
    decreases k - j,
{
    if j < k {
        assert(calls.take(k).drop_last() =~= calls.take(k - 1));
        lemma_admitted_count_grows(calls, j, k - 1);
    }
}

/// Ids are issued in call order without gaps: the admitted call at position
/// `k` of a run receives the counter's starting value plus the number of
/// admitted calls before it. From an empty ledger the ids are 0, 1, 2, ...
pub proof fn lemma_ids_issued_in_sequence(state: LedgerState, calls: Seq<Registration>, k: int)
    requires
        state.next_id + admitted_count(calls) <= u64::MAX,
        0 <= k < calls.len(),
        calls[k].admitted(),
    ensures
        calls[k].outcome(state_after(state, calls.take(k))) is Ok,
        calls[k].outcome(state_after(state, calls.take(k)))->Ok_0.id == state.next_id
            + admitted_count(calls.take(k)),
{
    lemma_admitted_count_grows(calls, k, calls.len() as int);
    assert(calls.take(calls.len() as int) =~= calls);
    lemma_counter_counts_admitted(state, calls.take(k));
}

/// A run of registrations leaves the oracle as it was, and keeps a
/// well-formed state well formed.
pub proof fn lemma_runs_keep_oracle_and_form(state: LedgerState, calls: Seq<Registration>)
    requires
        state.next_id + admitted_count(calls) <= u64::MAX,
    ensures
        state_after(state, calls).oracle == state.oracle,
        state.well_formed() ==> state_after(state, calls).well_formed(),
    decreases calls.len(),
{
    if calls.len() > 0 {
        lemma_runs_keep_oracle_and_form(state, calls.drop_last());
        lemma_counter_counts_admitted(state, calls.drop_last());
    }
}

/// Where every call of a run is admitted, all of them count.
pub proof fn lemma_all_admitted_count(calls: Seq<Registration>)
    requires
        forall|i: int| 0 <= i < calls.len() ==> (#[trigger] calls[i]).admitted(),
    ensures
        admitted_count(calls) == calls.len(),
    decreases calls.len(),
{
    if calls.len() > 0 {
        lemma_all_admitted_count(calls.drop_last());
    }
}

/// On a ledger that starts empty, a run of admitted registrations receives
/// the ids 0, 1, 2, ... in call order.
pub proof fn lemma_ids_count_from_zero(calls: Seq<Registration>, k: int)
    requires
        calls.len() <= u64::MAX,
        forall|i: int| 0 <= i < calls.len() ==> (#[trigger] calls[i]).admitted(),
        0 <= k < calls.len(),
    ensures
        calls[k].outcome(state_after(LedgerState::empty(), calls.take(k))) is Ok,
        calls[k].outcome(state_after(LedgerState::empty(), calls.take(k)))->Ok_0.id == k,
{
    lemma_all_admitted_count(calls);
    lemma_all_admitted_count(calls.take(k));
    lemma_ids_issued_in_sequence(LedgerState::empty(), calls, k);
}

/// No id is issued twice: two admitted calls of one run receive different
/// ids.
pub proof fn lemma_ids_never_repeat(state: LedgerState, calls: Seq<Registration>, j: int, k: int)
    requires
        state.next_id + admitted_count(calls) <= u64::MAX,
        0 <= j < k < calls.len(),
        calls[j].admitted(),
        calls[k].admitted(),
    ensures
        calls[j].outcome(state_after(state, calls.take(j)))->Ok_0.id < calls[k].outcome(
            state_after(state, calls.take(k)),
        )->Ok_0.id,
{
    lemma_ids_issued_in_sequence(state, calls, j);
    lemma_ids_issued_in_sequence(state, calls, k);
    lemma_admitted_count_grows(calls, j, k);
}

/// Right after a registration, looking the returned id up gives the project
/// that the registration returned, equal in every field.
pub proof fn lemma_registered_project_is_found(state: LedgerState, call: Registration)
    requires
        call.outcome(state) is Ok,
    ensures
        call.apply(state).lookup(call.outcome(state)->Ok_0.id) == call.outcome(state),
{
}

/// A registration touches nothing but the counter and the entry of the new
/// id: the oracle and every other project stay as they were.
pub proof fn lemma_registration_keeps_the_rest(state: LedgerState, call: Registration, id: u64)
    requires
        id != state.next_id,
    ensures
        call.apply(state).oracle == state.oracle,
        call.apply(state).projects.contains_key(id) == state.projects.contains_key(id),
        call.apply(state).lookup(id) == state.lookup(id),
{
}

/// Looking up an id under which nothing is stored fails with `NotFound`; in
/// a well-formed state that is every id that has not been issued yet.
pub proof fn lemma_unused_id_not_found(state: LedgerState, id: u64)
    ensures
        !state.projects.contains_key(id) ==> state.lookup(id) == Err::<Project, RegistryError>(
            RegistryError::NotFound,
        ),
        state.well_formed() && id >= state.next_id ==> state.lookup(id) == Err::<
            Project,
            RegistryError,
        >(RegistryError::NotFound),
{
}

/// While no oracle is configured, every verification fails with
/// `NotConfigured`, whatever project and hash it names, and changes nothing.
pub proof fn lemma_no_oracle_no_verification(
    state: LedgerState,
    project_id: u64,
    submitted_hash: [u8; 32],
)
    requires
        state.oracle is None,
    ensures
        verification_outcome(state, project_id, submitted_hash) == Err::<(), RegistryError>(
            RegistryError::NotConfigured,
        ),
        verification_state(state, project_id, submitted_hash) == state,
{
}

/// On a ledger that starts empty, verification fails with `NotConfigured`
/// after any run of registrations: only setting an oracle enables it.
pub proof fn lemma_no_verification_before_oracle(
    calls: Seq<Registration>,
    project_id: u64,
    submitted_hash: [u8; 32],
)
    requires
        admitted_count(calls) <= u64::MAX,
    ensures
        verification_outcome(
            state_after(LedgerState::empty(), calls),
            project_id,
            submitted_hash,
        ) == Err::<(), RegistryError>(RegistryError::NotConfigured),
{
    lemma_runs_keep_oracle_and_form(LedgerState::empty(), calls);
}

/// With an oracle configured, verifying a project in `Funding` with the hash
/// it was registered with succeeds and completes it; after that every
/// verification of the project, with that hash or any other, fails with
/// `AlreadyCompleted`.
pub proof fn lemma_release_happens_once(
    state: LedgerState,
    project_id: u64,
    submitted_hash: [u8; 32],
    later_hash: [u8; 32],
)
    requires
        state.oracle is Some,
        state.projects.contains_key(project_id),
        state.projects[project_id].status == ProjectStatus::Funding,
        state.projects[project_id].proof_hash == submitted_hash,
    ensures
        verification_outcome(state, project_id, submitted_hash) == Ok::<(), RegistryError>(()),
        verification_state(state, project_id, submitted_hash).lookup(project_id) == Ok::<
            Project,
            RegistryError,
        >(Project { status: ProjectStatus::Completed, ..state.projects[project_id] }),
        verification_outcome(
            verification_state(state, project_id, submitted_hash),
            project_id,
            later_hash,
        ) == Err::<(), RegistryError>(RegistryError::AlreadyCompleted),
{
}

/// With an oracle configured, verifying a project in `Funding` with a hash
/// other than its commitment fails with `HashMismatch` and leaves the state,
/// and so the project's status, as it was.
pub proof fn lemma_wrong_hash_is_refused(
    state: LedgerState,
    project_id: u64,
    submitted_hash: [u8; 32],
)
    requires
        state.oracle is Some,
        state.projects.contains_key(project_id),
        state.projects[project_id].status == ProjectStatus::Funding,
        state.projects[project_id].proof_hash != submitted_hash,
    ensures
        verification_outcome(state, project_id, submitted_hash) == Err::<(), RegistryError>(
            RegistryError::HashMismatch,
        ),
        verification_state(state, project_id, submitted_hash) == state,
{
}

/// With an oracle configured, a project that has just been registered is
/// released by the hash it was registered with, and by no other: the right
/// hash completes it, a wrong one fails with `HashMismatch` and leaves it in
/// `Funding`.
pub proof fn lemma_registered_project_awaits_its_proof(
    state: LedgerState,
    call: Registration,
    submitted_hash: [u8; 32],
)
    requires
        state.oracle is Some,
        call.admitted(),
    ensures
        ({
            let registered = call.apply(state);
            let id = call.outcome(state)->Ok_0.id;
            let outcome = verification_outcome(registered, id, submitted_hash);
            let after = verification_state(registered, id, submitted_hash);
            &&& registered.lookup(id) == call.outcome(state)
            &&& submitted_hash == call.proof_hash ==> outcome == Ok::<(), RegistryError>(())
                && after.projects[id].status == ProjectStatus::Completed
            &&& submitted_hash != call.proof_hash ==> outcome == Err::<(), RegistryError>(
                RegistryError::HashMismatch,
            ) && after == registered && after.projects[id].status == ProjectStatus::Funding
        }),
{
}

/// With an oracle configured, whichever identity it is, verifying an id
/// under which no project is stored fails with `NotFound` for every hash.
pub proof fn lemma_unknown_project_is_refused(
    state: LedgerState,
    project_id: u64,
    submitted_hash: [u8; 32],
)
    requires
        state.oracle is Some,
        !state.projects.contains_key(project_id),
    ensures
        verification_outcome(state, project_id, submitted_hash) == Err::<(), RegistryError>(
            RegistryError::NotFound,
        ),
        verification_state(state, project_id, submitted_hash) == state,
{
}

/// A verification changes at most the status of the project it names, and
/// only from `Funding` to `Completed`: every project stays stored, keeps its
/// id, creator, goal, balance, hash and deadline, and none leaves
/// `Completed`. The counter and the oracle stay as they were.
pub proof fn lemma_verification_only_completes(
    state: LedgerState,
    project_id: u64,
    submitted_hash: [u8; 32],
    id: u64,
)
    requires
        state.projects.contains_key(id),
    ensures
        ({
            let after = verification_state(state, project_id, submitted_hash);
            let before_project = state.projects[id];
            &&& after.next_id == state.next_id
            &&& after.oracle == state.oracle
            &&& after.projects.dom() == state.projects.dom()
            &&& after.projects[id] == (Project { status: after.projects[id].status, ..before_project })
            &&& before_project.status == ProjectStatus::Completed ==> after.projects[id].status
                == ProjectStatus::Completed
            &&& id != project_id ==> after.projects[id] == before_project
        }),
{
}

/// Registrations and verifications keep a state well formed, as long as the
/// counter has room for the ids that are issued.
pub proof fn lemma_well_formed_is_kept(
    state: LedgerState,
    call: Registration,
    project_id: u64,
    submitted_hash: [u8; 32],
)
    requires
        state.well_formed(),
    ensures
        state.next_id < u64::MAX ==> call.apply(state).well_formed(),
        verification_state(state, project_id, submitted_hash).well_formed(),
{
}

/// In a well-formed state an admitted registration fills an id that was
/// free: no stored project is replaced.
pub proof fn lemma_registration_replaces_nothing(state: LedgerState, call: Registration)
    requires
        state.well_formed(),
        call.admitted(),
    ensures
        !state.projects.contains_key(call.outcome(state)->Ok_0.id),
{
}

/// One call of the keyed store.
pub enum StoreCall {
    /// `get_and_increment_project_id`.
    IssueId,
    /// `project_count`.
    ReadCount,
    /// `save_project` of the given project.
    Save(Project),
    /// `load_project` of the given id.
    Load(u64),
    /// `set_oracle` to the given address.
    SetOracle(Address),
    /// `get_oracle`.
    GetOracle,
}

impl StoreCall {
    /// The state that the call leaves when it runs in `state`.
    pub open spec fn apply(self, state: LedgerState) -> LedgerState {
        match self {
            StoreCall::IssueId => state.with_id_issued(),
            StoreCall::Save(project) => state.with_project(project),
            StoreCall::SetOracle(oracle) => state.with_oracle(oracle),
            StoreCall::ReadCount | StoreCall::Load(_) | StoreCall::GetOracle => state,
        }
    }
}

/// How many of `calls` issue an id.
pub open spec fn issued_count(calls: Seq<StoreCall>) -> nat
    decreases calls.len(),
{
    if calls.len() == 0 {
        0
    } else {
        issued_count(calls.drop_last()) + if calls.last() is IssueId {
            1nat
        } else {
            0nat
        }
    }
}

/// The state after the store calls `calls` have run in order, starting in
/// `state`.
pub open spec fn store_after(state: LedgerState, calls: Seq<StoreCall>) -> LedgerState
    decreases calls.len(),
{
    if calls.len() == 0 {
        state
    } else {
        calls.last().apply(store_after(state, calls.drop_last()))
    }
}

/// The id that the call at position `k` of a run of store calls returns, if
/// it issues one: the counter of the state in which it runs.
pub open spec fn id_issued_at(state: LedgerState, calls: Seq<StoreCall>, k: int) -> u64 {
    store_after(state, calls.take(k)).next_id
}

/// Only issuing an id moves the counter: saving or loading a project,
/// setting or reading the oracle and reading the counter leave it as it was.
pub proof fn lemma_only_issuing_moves_counter(state: LedgerState, call: StoreCall)
    ensures
        !(call is IssueId) ==> call.apply(state).next_id == state.next_id,
        call is IssueId && state.next_id < u64::MAX ==> call.apply(state).next_id
            == state.next_id + 1,
{
}

/// The counter after a run of store calls has advanced by the number of ids
/// issued in it, whatever other calls stand between.
pub proof fn lemma_store_counter_counts_issued(state: LedgerState, calls: Seq<StoreCall>)
    requires
        state.next_id + issued_count(calls) <= u64::MAX,
    ensures
        store_after(state, calls).next_id == state.next_id + issued_count(calls),
    decreases calls.len(),
{
    if calls.len() > 0 {
        lemma_store_counter_counts_issued(state, calls.drop_last());
    }
}

/// The number of ids issued does not shrink as a run grows, and grows with
/// every call that issues one.
pub proof fn lemma_issued_count_grows(calls: Seq<StoreCall>, j: int, k: int)
    requires
        0 <= j <= k <= calls.len(),
    ensures
        issued_count(calls.take(j)) <= issued_count(calls.take(k)),
        j < k && calls[j] is IssueId ==> issued_count(calls.take(j)) < issued_count(
            calls.take(k),
        ),
    decreases k - j,
{
    if j < k {
        assert(calls.take(k).drop_last() =~= calls.take(k - 1));
        lemma_issued_count_grows(calls, j, k - 1);
    }
}

/// The store issues ids in call order without gaps, whatever other store
/// calls stand between: the issuing call at position `k` of a run returns the
/// counter's starting value plus the number of ids issued before it, and
/// finds the counter below the largest id, as it requires. From an empty
/// ledger the ids are 0, 1, 2, ...
pub proof fn lemma_store_ids_in_sequence(state: LedgerState, calls: Seq<StoreCall>, k: int)
    requires
        state.next_id + issued_count(calls) <= u64::MAX,
        0 <= k < calls.len(),
        calls[k] is IssueId,
    ensures
        id_issued_at(state, calls, k) == state.next_id + issued_count(calls.take(k)),
        id_issued_at(state, calls, k) < u64::MAX,
        id_issued_at(LedgerState::empty(), calls, k) == issued_count(calls.take(k)),
{
    lemma_issued_count_grows(calls, k, calls.len() as int);
    assert(calls.take(calls.len() as int) =~= calls);
    lemma_store_counter_counts_issued(state, calls.take(k));
    lemma_store_counter_counts_issued(LedgerState::empty(), calls.take(k));
}

/// The store issues no id twice: of two issuing calls in one run, the later
/// returns the larger id.
pub proof fn lemma_store_ids_never_repeat(
    state: LedgerState,
    calls: Seq<StoreCall>,
    j: int,
    k: int,
)
    requires
        state.next_id + issued_count(calls) <= u64::MAX,
        0 <= j < k < calls.len(),
        calls[j] is IssueId,
        calls[k] is IssueId,
    ensures
        id_issued_at(state, calls, j) < id_issued_at(state, calls, k),
{
    lemma_store_ids_in_sequence(state, calls, j);
    lemma_store_ids_in_sequence(state, calls, k);
    lemma_issued_count_grows(calls, j, k);
}

} // verus!
