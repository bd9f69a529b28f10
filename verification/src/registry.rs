//! The project registry and the verification that releases a project.
//!
//! Each operation is specified by a pair of functions on [`LedgerState`]:
//! its outcome, and the state it leaves behind. The executable operations
//! are proved to compute exactly these; the rules of the registry are proved
//! of them in [`crate::rules`]. Each operation runs inside an invocation
//! that the host serves, which its `requires` states as `Ledger::ready`,
//! and stores only addresses of the ledger's host.

use crate::storage::{
    get_and_increment_project_id, get_oracle, load_project, project_count, save_project, Ledger,
    LedgerState,
};
use crate::types::{Project, ProjectStatus, RegistryError};
use soroban_sdk::Address;
use vstd::prelude::*;

verus! {

/// The project that a registration creates under `id`: nothing raised yet,
/// and open for funding.
pub open spec fn new_project(
    id: u64,
    creator: Address,
    goal: i128,
    proof_hash: [u8; 32],
    deadline: u64,
) -> Project {
    Project { id, creator, goal, balance: 0, proof_hash, deadline, status: ProjectStatus::Funding }
}

/// Whether a registration is admitted at ledger time `now`: the goal has to
/// be positive, and the deadline has to lie in the future.
pub open spec fn registration_check(goal: i128, deadline: u64, now: u64) -> Result<
    (),
    RegistryError,
> {
    if goal <= 0 {
        Err(RegistryError::InvalidGoal)
    } else if deadline <= now {
        Err(RegistryError::InvalidDeadline)
    } else {
        Ok(())
    }
}

/// Whether a registration at ledger time `now` finds the ids used up: it is
/// admitted, and the counter has reached the largest id.
pub open spec fn ids_used_up(state: LedgerState, goal: i128, deadline: u64, now: u64) -> bool {
    registration_check(goal, deadline, now) is Ok && state.next_id == u64::MAX
}

/// What a registration returns: the new project under the next id, or the
/// reason for which it is refused.
pub open spec fn registration_outcome(
    state: LedgerState,
    creator: Address,
    goal: i128,
    proof_hash: [u8; 32],
    deadline: u64,
    now: u64,
) -> Result<Project, RegistryError> {
    match registration_check(goal, deadline, now) {
        Ok(_) => Ok(new_project(state.next_id, creator, goal, proof_hash, deadline)),
        Err(reason) => Err(reason),
    }
}

/// The state after `project` has been registered: the counter has advanced
/// by one and the project is stored under its id.
pub open spec fn with_registered(state: LedgerState, project: Project) -> LedgerState {
    state.with_id_issued().with_project(project)
}

/// The state that a registration leaves: unchanged where it is refused.
pub open spec fn registration_state(
    state: LedgerState,
    creator: Address,
    goal: i128,
    proof_hash: [u8; 32],
    deadline: u64,
    now: u64,
) -> LedgerState {
    match registration_outcome(state, creator, goal, proof_hash, deadline, now) {
        Ok(project) => with_registered(state, project),
        Err(_) => state,
    }
}

/// What a verification returns. The checks run in this order: an oracle is
/// configured, the project exists, it is not yet completed, and the
/// submitted hash equals the stored commitment.
pub open spec fn verification_outcome(
    state: LedgerState,
    project_id: u64,
    submitted_hash: [u8; 32],
) -> Result<(), RegistryError> {
    if state.oracle is None {
        Err(RegistryError::NotConfigured)
    } else if !state.projects.contains_key(project_id) {
        Err(RegistryError::NotFound)
    } else if state.projects[project_id].status == ProjectStatus::Completed {
        Err(RegistryError::AlreadyCompleted)
    } else if state.projects[project_id].proof_hash != submitted_hash {
        Err(RegistryError::HashMismatch)
    } else {
        Ok(())
    }
}

/// The state in which the project under `project_id` is completed and all
/// else is as in `state`.
pub open spec fn with_completed(state: LedgerState, project_id: u64) -> LedgerState {
    LedgerState {
        projects: state.projects.insert(
            project_id,
            Project { status: ProjectStatus::Completed, ..state.projects[project_id] },
        ),
        ..state
    }
}

/// The state that a verification leaves: unchanged where it is refused.
pub open spec fn verification_state(
    state: LedgerState,
    project_id: u64,
    submitted_hash: [u8; 32],
) -> LedgerState {
    match verification_outcome(state, project_id, submitted_hash) {
        Ok(_) => with_completed(state, project_id),
        Err(_) => state,
    }
}

/// Compares two hashes byte for byte.
pub fn hashes_match(left: &[u8; 32], right: &[u8; 32]) -> (same: bool)
    ensures
        same == (*left == *right),
{
    let mut i: usize = 0;
    while i < 32
        invariant
            i <= 32,
            forall|j: int| 0 <= j < i ==> left[j] == right[j],
        decreases 32 - i,
    {
        if left[i] != right[i] {
            return false;
        }
        i += 1;
    }
    assert(*left =~= *right);
    true
}

/// Registers a project at ledger time `now`.
///
/// A non-positive goal is refused with `InvalidGoal`, and otherwise a
/// deadline that is not after `now` with `InvalidDeadline`; a refusal leaves
/// the ledger as it was. An admitted project receives the next id, starts
/// with no balance in `Funding`, and is stored as returned. An admitted call
/// needs an id to issue: the counter must be below the largest id.
pub fn register_project_at(
    ledger: &mut Ledger,
    creator: Address,
    goal: i128,
    proof_hash: [u8; 32],
    deadline: u64,
    now: u64,
) -> (outcome: Result<Project, RegistryError>)
    requires
        old(ledger).ready(),
        old(ledger).knows(creator),
        !ids_used_up(old(ledger)@, goal, deadline, now),
    ensures
        final(ledger).continues(*old(ledger)),
        outcome == registration_outcome(
            old(ledger)@,
            creator,
            goal,
            proof_hash,
            deadline,
            now,
        ),
        final(ledger)@ == registration_state(
            old(ledger)@,
            creator,
            goal,
            proof_hash,
            deadline,
            now,
        ),
{
    if goal <= 0 {
        return Err(RegistryError::InvalidGoal);
    }
    if deadline <= now {
        return Err(RegistryError::InvalidDeadline);
    }
    let id = get_and_increment_project_id(ledger);
    let project = Project {
        id,
        creator,
        goal,
        balance: 0,
        proof_hash,
        deadline,
        status: ProjectStatus::Funding,
    };
    save_project(ledger, &project);
    Ok(project)
}

/// Registers a project at the current time of the ledger, unless the ids
/// are used up.
///
/// Returns `None`, and leaves the ledger as it was, where the call is
/// admitted at the time that the ledger reports and the counter has reached
/// the largest id. In every other case the outcome and the ledger afterwards
/// are those of [`register_project_at`] for that time, whatever that time
/// is.
pub fn register_project(
    ledger: &mut Ledger,
    creator: Address,
    goal: i128,
    proof_hash: [u8; 32],
    deadline: u64,
) -> (outcome: Option<Result<Project, RegistryError>>)
    requires
        old(ledger).ready(),
        old(ledger).knows(creator),
    ensures
        final(ledger).continues(*old(ledger)),
        exists|now: u64|
            {
                &&& outcome is None <==> #[trigger] ids_used_up(
                    old(ledger)@,
                    goal,
                    deadline,
                    now,
                )
                &&& outcome is None ==> final(ledger)@ == old(ledger)@
                &&& outcome is Some ==> outcome->0 == registration_outcome(
                    old(ledger)@,
                    creator,
                    goal,
                    proof_hash,
                    deadline,
                    now,
                ) && final(ledger)@ == registration_state(
                    old(ledger)@,
                    creator,
                    goal,
                    proof_hash,
                    deadline,
                    now,
                )
            },
        goal <= 0 ==> outcome == Some(
            Err::<Project, RegistryError>(RegistryError::InvalidGoal),
        ),
        old(ledger)@.next_id < u64::MAX ==> outcome is Some,
{
    let now = ledger.timestamp();
    let outcome = if goal > 0 && deadline > now && project_count(ledger) == u64::MAX {
        None
    } else {
        Some(register_project_at(ledger, creator, goal, proof_hash, deadline, now))
    };
    assert(outcome is None <==> ids_used_up(old(ledger)@, goal, deadline, now));
    outcome
}

/// Looks a project up by id; `NotFound` where none is stored under it.
pub fn get_project(ledger: &Ledger, id: u64) -> (outcome: Result<Project, RegistryError>)
    requires
        ledger.ready(),
    ensures
        outcome == ledger@.lookup(id),
        outcome matches Ok(project) ==> project.id == id && ledger.knows(project.creator),
{
    load_project(ledger, id)
}

/// Makes `oracle` the identity that may verify projects, replacing any
/// earlier one. The caller has authenticated `admin` as the administrator.
pub fn set_oracle(ledger: &mut Ledger, admin: &Address, oracle: &Address)
    requires
        old(ledger).ready(),
        old(ledger).knows(*oracle),
    ensures
        final(ledger).continues(*old(ledger)),
        final(ledger)@ == old(ledger)@.with_oracle(*oracle),
{
    let _ = admin;
    crate::storage::set_oracle(ledger, oracle);
}

/// Verifies a submitted proof hash against a project's commitment and, on a
/// match, completes the project. The caller has authenticated the configured
/// oracle as the acting party.
///
/// Fails with `NotConfigured` where no oracle is set, else with `NotFound`
/// where the project does not exist, else with `AlreadyCompleted` where it
/// is completed, else with `HashMismatch` where the hashes differ. A failure
/// leaves the ledger as it was.
pub fn verify_and_release(ledger: &mut Ledger, project_id: u64, submitted_hash: &[u8; 32]) -> (outcome:
    Result<(), RegistryError>)
    requires
        old(ledger).ready(),
    ensures
        final(ledger).continues(*old(ledger)),
        outcome == verification_outcome(old(ledger)@, project_id, *submitted_hash),
        final(ledger)@ == verification_state(
            old(ledger)@,
            project_id,
            *submitted_hash,
        ),
{
    match get_oracle(ledger) {
        Err(reason) => {
            return Err(reason);
        },
        Ok(_) => {},
    }
    let mut project = match load_project(ledger, project_id) {
        Err(reason) => {
            return Err(reason);
        },
        Ok(project) => project,
    };
    match project.status {
        ProjectStatus::Completed => {
            return Err(RegistryError::AlreadyCompleted);
        },
        ProjectStatus::Funding => {},
    }
    if !hashes_match(submitted_hash, &project.proof_hash) {
        return Err(RegistryError::HashMismatch);
    }
    project.status = ProjectStatus::Completed;
    save_project(ledger, &project);
    Ok(())
}

} // verus!
