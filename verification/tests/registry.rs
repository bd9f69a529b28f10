//! The registry's operations, run against the Soroban test host.

use pifp_protocol::registry::{
    get_project, hashes_match, register_project, register_project_at, set_oracle,
    verify_and_release,
};
use pifp_protocol::storage::{get_oracle, project_count, DataKey, Ledger};
use pifp_protocol::types::{Project, ProjectStatus, RegistryError};
use soroban_sdk::testutils::{Address as _, ContractFunctionSet, EnvTestConfig, Ledger as _};
use soroban_sdk::{Address, Env, Val};

/// A contract without entry points: the tests act in its storage.
struct Escrow;

impl ContractFunctionSet for Escrow {
    fn call(&self, _func: &str, _env: Env, _args: &[Val]) -> Option<Val> {
        None
    }
}

/// A test host with one registered contract, and the registry's operations
/// run as invocations of that contract.
struct Client {
    env: Env,
    contract: Address,
}

impl Client {
    /// Runs `call` as one invocation of the contract, on a ledger of its own.
    fn invoke<T>(&self, call: impl FnOnce(&mut Ledger) -> T) -> T {
        self.env.as_contract(&self.contract, || {
            let mut ledger = Ledger::new(self.env.clone());
            call(&mut ledger)
        })
    }

    fn register_project(
        &self,
        creator: &Address,
        goal: i128,
        proof_hash: &[u8; 32],
        deadline: u64,
    ) -> Result<Project, RegistryError> {
        match self.register_project_unless_full(creator, goal, proof_hash, deadline) {
            Some(outcome) => outcome,
            None => panic!("attempt to add with overflow"),
        }
    }

    fn register_project_at(
        &self,
        creator: &Address,
        goal: i128,
        proof_hash: &[u8; 32],
        deadline: u64,
        now: u64,
    ) -> Result<Project, RegistryError> {
        self.invoke(|ledger| {
            register_project_at(ledger, creator.clone(), goal, *proof_hash, deadline, now)
        })
    }

    fn register_project_unless_full(
        &self,
        creator: &Address,
        goal: i128,
        proof_hash: &[u8; 32],
        deadline: u64,
    ) -> Option<Result<Project, RegistryError>> {
        self.invoke(|ledger| {
            register_project(ledger, creator.clone(), goal, *proof_hash, deadline)
        })
    }

    fn get_project(&self, id: u64) -> Result<Project, RegistryError> {
        self.invoke(|ledger| get_project(ledger, id))
    }

    fn set_oracle(&self, admin: &Address, oracle: &Address) {
        self.invoke(|ledger| set_oracle(ledger, admin, oracle))
    }

    fn get_oracle(&self) -> Result<Address, RegistryError> {
        self.invoke(|ledger| get_oracle(ledger))
    }

    fn verify_and_release(&self, project_id: u64, proof: &[u8; 32]) -> Result<(), RegistryError> {
        self.invoke(|ledger| verify_and_release(ledger, project_id, proof))
    }

    fn project_count(&self) -> u64 {
        self.invoke(|ledger| project_count(ledger))
    }
}

fn setup() -> (Env, Client) {
    let env = Env::new_with_config(EnvTestConfig { capture_snapshot_at_drop: false });
    env.mock_all_auths();

    let contract = env.register(Escrow, ());
    let client = Client { env: env.clone(), contract };
    (env, client)
}

/// Fails the test with the message of the error, as the contract's entry
/// points do.
fn expect<T>(outcome: Result<T, RegistryError>) -> T {
    match outcome {
        Ok(value) => value,
        Err(reason) => panic!("{}", reason.message()),
    }
}

// ── Project Registry Tests ──────────────────────────────────────────

#[test]
fn test_register_project_success() {
    let (env, client) = setup();

    let creator = Address::generate(&env);
    let proof_hash = [1u8; 32];
    let goal: i128 = 1_000;
    let deadline: u64 = env.ledger().timestamp() + 86_400;

    let project = expect(client.register_project(&creator, goal, &proof_hash, deadline));

    assert_eq!(project.id, 0);
    assert_eq!(project.creator, creator);
    assert_eq!(project.goal, goal);
    assert_eq!(project.balance, 0);
    assert_eq!(project.proof_hash, proof_hash);
    assert_eq!(project.deadline, deadline);
    assert_eq!(project.status, ProjectStatus::Funding);
}

#[test]
fn test_register_second_project_unique_ids() {
    let (env, client) = setup();

    let creator = Address::generate(&env);
    let proof_hash = [2u8; 32];
    let deadline: u64 = env.ledger().timestamp() + 86_400;

    let first = expect(client.register_project(&creator, 500, &proof_hash, deadline));
    let second = expect(client.register_project(&creator, 700, &proof_hash, deadline));

    assert_eq!(first.id, 0);
    assert_eq!(second.id, 1);
}

#[test]
#[should_panic(expected = "goal must be positive")]
fn test_register_project_invalid_goal() {
    let (env, client) = setup();

    let creator = Address::generate(&env);
    let proof_hash = [3u8; 32];
    let deadline: u64 = env.ledger().timestamp() + 86_400;

    expect(client.register_project(&creator, 0, &proof_hash, deadline));
}

#[test]
#[should_panic(expected = "deadline must be in the future")]
fn test_register_project_invalid_deadline() {
    let (env, client) = setup();

    let creator = Address::generate(&env);
    let proof_hash = [4u8; 32];
    let deadline: u64 = 0;

    expect(client.register_project(&creator, 100, &proof_hash, deadline));
}

#[test]
fn test_get_project_success() {
    let (env, client) = setup();

    let creator = Address::generate(&env);
    let proof_hash = [5u8; 32];
    let deadline: u64 = env.ledger().timestamp() + 86_400;

    let registered = expect(client.register_project(&creator, 999, &proof_hash, deadline));
    let retrieved = expect(client.get_project(registered.id));

    assert_eq!(registered, retrieved);
}

#[test]
#[should_panic(expected = "project not found")]
fn test_get_project_not_found() {
    let (_env, client) = setup();

    expect(client.get_project(42));
}

// ── Proof Verification Tests ────────────────────────────────────────

#[test]
fn test_set_oracle() {
    let (env, client) = setup();

    let admin = Address::generate(&env);
    let oracle = Address::generate(&env);

    client.set_oracle(&admin, &oracle);

    assert_eq!(client.get_oracle(), Ok(oracle));
}

#[test]
fn test_verify_and_release_success() {
    let (env, client) = setup();

    let creator = Address::generate(&env);
    let proof_hash = [10u8; 32];
    let deadline: u64 = env.ledger().timestamp() + 86_400;

    let project = expect(client.register_project(&creator, 500, &proof_hash, deadline));

    let admin = Address::generate(&env);
    let oracle = Address::generate(&env);
    client.set_oracle(&admin, &oracle);

    // Oracle verifies with the correct proof hash.
    expect(client.verify_and_release(project.id, &proof_hash));

    // Check project status is now Completed.
    let updated = expect(client.get_project(project.id));
    assert_eq!(updated.status, ProjectStatus::Completed);
}

#[test]
#[should_panic(expected = "proof verification failed: hash mismatch")]
fn test_verify_wrong_hash() {
    let (env, client) = setup();

    let creator = Address::generate(&env);
    let proof_hash = [10u8; 32];
    let wrong_hash = [99u8; 32];
    let deadline: u64 = env.ledger().timestamp() + 86_400;

    let project = expect(client.register_project(&creator, 500, &proof_hash, deadline));

    let admin = Address::generate(&env);
    let oracle = Address::generate(&env);
    client.set_oracle(&admin, &oracle);

    expect(client.verify_and_release(project.id, &wrong_hash));
}

#[test]
#[should_panic(expected = "project already completed")]
fn test_verify_already_completed() {
    let (env, client) = setup();

    let creator = Address::generate(&env);
    let proof_hash = [10u8; 32];
    let deadline: u64 = env.ledger().timestamp() + 86_400;

    let project = expect(client.register_project(&creator, 500, &proof_hash, deadline));

    let admin = Address::generate(&env);
    let oracle = Address::generate(&env);
    client.set_oracle(&admin, &oracle);

    // First verification succeeds.
    expect(client.verify_and_release(project.id, &proof_hash));

    // Second verification should fail.
    expect(client.verify_and_release(project.id, &proof_hash));
}

#[test]
#[should_panic(expected = "project not found")]
fn test_verify_nonexistent_project() {
    let (env, client) = setup();

    let admin = Address::generate(&env);
    let oracle = Address::generate(&env);
    client.set_oracle(&admin, &oracle);

    let fake_hash = [0u8; 32];
    expect(client.verify_and_release(999, &fake_hash));
}

#[test]
#[should_panic(expected = "oracle not set")]
fn test_verify_without_oracle_set() {
    let (env, client) = setup();

    let creator = Address::generate(&env);
    let proof_hash = [10u8; 32];
    let deadline: u64 = env.ledger().timestamp() + 86_400;

    let project = expect(client.register_project(&creator, 500, &proof_hash, deadline));

    // No oracle set — should panic.
    expect(client.verify_and_release(project.id, &proof_hash));
}

// ── Registration ────────────────────────────────────────────────────

#[test]
fn ids_count_up_from_zero_without_gaps() {
    let (env, client) = setup();
    let creator = Address::generate(&env);
    let deadline = env.ledger().timestamp() + 86_400;

    assert_eq!(client.project_count(), 0);
    for expected in 0u64..5 {
        let project = client.register_project(&creator, 10, &[7u8; 32], deadline).unwrap();
        assert_eq!(project.id, expected);
        assert_eq!(client.project_count(), expected + 1);
    }
}

#[test]
fn refused_registration_issues_no_id() {
    let (env, client) = setup();
    let creator = Address::generate(&env);
    let deadline = env.ledger().timestamp() + 86_400;

    let first = client.register_project(&creator, 10, &[7u8; 32], deadline).unwrap();
    assert_eq!(
        client.register_project(&creator, 0, &[7u8; 32], deadline),
        Err(RegistryError::InvalidGoal)
    );
    assert_eq!(
        client.register_project(&creator, 10, &[7u8; 32], 0),
        Err(RegistryError::InvalidDeadline)
    );
    let second = client.register_project(&creator, 20, &[8u8; 32], deadline).unwrap();

    assert_eq!(first.id, 0);
    assert_eq!(second.id, 1);
    assert_eq!(client.project_count(), 2);
    assert_eq!(client.get_project(2), Err(RegistryError::NotFound));
}

#[test]
fn zero_and_negative_goals_are_invalid() {
    let (env, client) = setup();
    let creator = Address::generate(&env);
    let deadline = env.ledger().timestamp() + 86_400;

    for goal in [0i128, -1, -1_000, i128::MIN] {
        assert_eq!(
            client.register_project(&creator, goal, &[3u8; 32], deadline),
            Err(RegistryError::InvalidGoal)
        );
    }
    assert_eq!(client.project_count(), 0);
    assert_eq!(client.get_project(0), Err(RegistryError::NotFound));
}

#[test]
fn smallest_and_largest_goals_are_accepted() {
    let (env, client) = setup();
    let creator = Address::generate(&env);
    let deadline = env.ledger().timestamp() + 86_400;

    let small = client.register_project(&creator, 1, &[3u8; 32], deadline).unwrap();
    let large = client.register_project(&creator, i128::MAX, &[3u8; 32], deadline).unwrap();

    assert_eq!(small.goal, 1);
    assert_eq!(large.goal, i128::MAX);
    assert_eq!(client.get_project(large.id), Ok(large));
}

#[test]
fn deadline_has_to_be_after_the_ledger_time() {
    let (env, client) = setup();
    let creator = Address::generate(&env);
    env.ledger().set_timestamp(1_000);

    for deadline in [0u64, 999, 1_000] {
        assert_eq!(
            client.register_project(&creator, 100, &[4u8; 32], deadline),
            Err(RegistryError::InvalidDeadline)
        );
    }
    let project = client.register_project(&creator, 100, &[4u8; 32], 1_001).unwrap();
    assert_eq!(project.id, 0);
    assert_eq!(project.deadline, 1_001);
}

#[test]
fn registration_follows_the_ledger_clock() {
    let (env, client) = setup();
    let creator = Address::generate(&env);

    env.ledger().set_timestamp(500);
    assert!(client.register_project(&creator, 100, &[4u8; 32], 600).is_ok());

    env.ledger().set_timestamp(600);
    assert_eq!(
        client.register_project(&creator, 100, &[4u8; 32], 600),
        Err(RegistryError::InvalidDeadline)
    );
}

#[test]
fn goal_is_checked_before_deadline() {
    let (env, client) = setup();
    let creator = Address::generate(&env);

    assert_eq!(
        client.register_project(&creator, 0, &[4u8; 32], 0),
        Err(RegistryError::InvalidGoal)
    );
    assert_eq!(
        client.register_project_at(&creator, -5, &[4u8; 32], 10, 20),
        Err(RegistryError::InvalidGoal)
    );
}

#[test]
fn register_project_at_uses_the_given_time() {
    let (env, client) = setup();
    let creator = Address::generate(&env);

    assert_eq!(
        client.register_project_at(&creator, 100, &[6u8; 32], 50, 50),
        Err(RegistryError::InvalidDeadline)
    );
    assert_eq!(
        client.register_project_at(&creator, 100, &[6u8; 32], 49, 50),
        Err(RegistryError::InvalidDeadline)
    );
    let project = client.register_project_at(&creator, 100, &[6u8; 32], 51, 50).unwrap();
    assert_eq!(
        project,
        Project {
            id: 0,
            creator: creator.clone(),
            goal: 100,
            balance: 0,
            proof_hash: [6u8; 32],
            deadline: 51,
            status: ProjectStatus::Funding,
        }
    );
    let latest = client.register_project_at(&creator, 1, &[6u8; 32], u64::MAX, u64::MAX - 1);
    assert_eq!(latest.unwrap().id, 1);
}

#[test]
fn registered_project_reads_back_equal_in_every_field() {
    let (env, client) = setup();
    let creator = Address::generate(&env);
    let other = Address::generate(&env);
    let mut hash = [0u8; 32];
    for (i, byte) in hash.iter_mut().enumerate() {
        *byte = (i * 7 + 3) as u8;
    }

    let first = client.register_project(&creator, 12_345, &hash, 777).unwrap();
    let second = client.register_project(&other, 1, &[255u8; 32], u64::MAX).unwrap();

    let read_first = client.get_project(first.id).unwrap();
    assert_eq!(read_first.id, 0);
    assert_eq!(read_first.creator, creator);
    assert_eq!(read_first.goal, 12_345);
    assert_eq!(read_first.balance, 0);
    assert_eq!(read_first.proof_hash, hash);
    assert_eq!(read_first.deadline, 777);
    assert_eq!(read_first.status, ProjectStatus::Funding);
    assert_eq!(read_first, first);

    let read_second = client.get_project(second.id).unwrap();
    assert_eq!(read_second, second);
    assert_eq!(read_second.creator, other);
    assert_ne!(read_second, read_first);
}

#[test]
fn unused_ids_are_not_found() {
    let (env, client) = setup();
    let creator = Address::generate(&env);

    assert_eq!(client.get_project(0), Err(RegistryError::NotFound));
    client.register_project(&creator, 5, &[1u8; 32], 100).unwrap();
    assert!(client.get_project(0).is_ok());
    assert_eq!(client.get_project(1), Err(RegistryError::NotFound));
    assert_eq!(client.get_project(42), Err(RegistryError::NotFound));
    assert_eq!(client.get_project(u64::MAX), Err(RegistryError::NotFound));
}

#[test]
fn registration_reports_every_outcome_while_ids_last() {
    let (env, client) = setup();
    let creator = Address::generate(&env);

    let first = client.register_project_unless_full(&creator, 10, &[1u8; 32], 100);
    assert_eq!(first.unwrap().unwrap().id, 0);
    assert_eq!(
        client.register_project_unless_full(&creator, 0, &[1u8; 32], 100),
        Some(Err(RegistryError::InvalidGoal))
    );
    assert_eq!(
        client.register_project_unless_full(&creator, 10, &[1u8; 32], 0),
        Some(Err(RegistryError::InvalidDeadline))
    );
    assert_eq!(client.project_count(), 1);
}

#[test]
fn registration_stops_at_the_last_id() {
    let (env, client) = setup();
    let creator = Address::generate(&env);
    env.ledger().set_timestamp(50);
    env.as_contract(&client.contract, || {
        env.storage().persistent().set(&DataKey::ProjectCount.to_slot(), &(u64::MAX - 1));
    });

    let last = client.register_project_unless_full(&creator, 10, &[1u8; 32], 100);
    assert_eq!(last.unwrap().unwrap().id, u64::MAX - 1);
    assert_eq!(client.project_count(), u64::MAX);

    assert_eq!(client.register_project_unless_full(&creator, 10, &[1u8; 32], 100), None);
    assert_eq!(client.register_project_unless_full(&creator, 1, &[1u8; 32], 51), None);
    assert_eq!(client.project_count(), u64::MAX);
    assert_eq!(client.get_project(u64::MAX), Err(RegistryError::NotFound));
}

#[test]
fn refusals_come_before_the_last_id() {
    let (env, client) = setup();
    let creator = Address::generate(&env);
    env.ledger().set_timestamp(50);
    env.as_contract(&client.contract, || {
        env.storage().persistent().set(&DataKey::ProjectCount.to_slot(), &u64::MAX);
    });

    assert_eq!(
        client.register_project_unless_full(&creator, 0, &[1u8; 32], 100),
        Some(Err(RegistryError::InvalidGoal))
    );
    assert_eq!(
        client.register_project_unless_full(&creator, -7, &[1u8; 32], 10),
        Some(Err(RegistryError::InvalidGoal))
    );
    assert_eq!(
        client.register_project_unless_full(&creator, 10, &[1u8; 32], 10),
        Some(Err(RegistryError::InvalidDeadline))
    );
    assert_eq!(
        client.register_project_unless_full(&creator, 10, &[1u8; 32], 50),
        Some(Err(RegistryError::InvalidDeadline))
    );
    assert_eq!(
        client.register_project_at(&creator, 10, &[1u8; 32], 50, 50),
        Err(RegistryError::InvalidDeadline)
    );
    assert_eq!(client.project_count(), u64::MAX);
}

// ── Verification ────────────────────────────────────────────────────

#[test]
fn verification_needs_an_oracle() {
    let (env, client) = setup();
    let creator = Address::generate(&env);
    let project = client.register_project(&creator, 500, &[10u8; 32], 100).unwrap();

    assert_eq!(client.get_oracle(), Err(RegistryError::NotConfigured));
    assert_eq!(
        client.verify_and_release(project.id, &[10u8; 32]),
        Err(RegistryError::NotConfigured)
    );
    assert_eq!(
        client.verify_and_release(project.id, &[11u8; 32]),
        Err(RegistryError::NotConfigured)
    );
    assert_eq!(client.verify_and_release(999, &[10u8; 32]), Err(RegistryError::NotConfigured));
    assert_eq!(client.get_project(project.id).unwrap().status, ProjectStatus::Funding);
}

#[test]
fn release_happens_once() {
    let (env, client) = setup();
    let creator = Address::generate(&env);
    let hash = [10u8; 32];
    let project = client.register_project(&creator, 500, &hash, 100).unwrap();
    client.set_oracle(&Address::generate(&env), &Address::generate(&env));

    assert_eq!(client.verify_and_release(project.id, &hash), Ok(()));
    let completed = client.get_project(project.id).unwrap();
    assert_eq!(completed, Project { status: ProjectStatus::Completed, ..project });

    assert_eq!(client.verify_and_release(project.id, &hash), Err(RegistryError::AlreadyCompleted));
    assert_eq!(
        client.verify_and_release(project.id, &[99u8; 32]),
        Err(RegistryError::AlreadyCompleted)
    );
    assert_eq!(client.get_project(project.id), Ok(completed));
}

#[test]
fn wrong_hash_leaves_the_project_in_funding() {
    let (env, client) = setup();
    let creator = Address::generate(&env);
    let hash = [10u8; 32];
    let project = client.register_project(&creator, 500, &hash, 100).unwrap();
    client.set_oracle(&Address::generate(&env), &Address::generate(&env));

    let mut nearly = hash;
    nearly[31] = 11;
    assert_eq!(client.verify_and_release(project.id, &nearly), Err(RegistryError::HashMismatch));
    let mut nearly = hash;
    nearly[0] = 0;
    assert_eq!(client.verify_and_release(project.id, &nearly), Err(RegistryError::HashMismatch));
    assert_eq!(
        client.verify_and_release(project.id, &[99u8; 32]),
        Err(RegistryError::HashMismatch)
    );
    assert_eq!(client.get_project(project.id), Ok(project.clone()));

    assert_eq!(client.verify_and_release(project.id, &hash), Ok(()));
    assert_eq!(client.get_project(project.id).unwrap().status, ProjectStatus::Completed);
}

#[test]
fn unknown_project_is_not_found_for_any_hash() {
    let (env, client) = setup();
    let creator = Address::generate(&env);
    client.register_project(&creator, 500, &[10u8; 32], 100).unwrap();
    client.set_oracle(&Address::generate(&env), &Address::generate(&env));

    for hash in [[0u8; 32], [10u8; 32], [255u8; 32]] {
        assert_eq!(client.verify_and_release(1, &hash), Err(RegistryError::NotFound));
        assert_eq!(client.verify_and_release(999, &hash), Err(RegistryError::NotFound));
    }
    client.set_oracle(&Address::generate(&env), &Address::generate(&env));
    assert_eq!(client.verify_and_release(999, &[0u8; 32]), Err(RegistryError::NotFound));
}

#[test]
fn oracle_can_be_replaced() {
    let (env, client) = setup();
    let admin = Address::generate(&env);
    let first = Address::generate(&env);
    let second = Address::generate(&env);

    client.set_oracle(&admin, &first);
    assert_eq!(client.get_oracle(), Ok(first.clone()));
    client.set_oracle(&admin, &second);
    assert_eq!(client.get_oracle(), Ok(second.clone()));
    assert_ne!(first, second);
}

#[test]
fn setting_the_oracle_keeps_projects_and_counter() {
    let (env, client) = setup();
    let creator = Address::generate(&env);
    let project = client.register_project(&creator, 500, &[10u8; 32], 100).unwrap();

    client.set_oracle(&Address::generate(&env), &Address::generate(&env));

    assert_eq!(client.project_count(), 1);
    assert_eq!(client.get_project(project.id), Ok(project));
    let next = client.register_project(&creator, 1, &[1u8; 32], 100).unwrap();
    assert_eq!(next.id, 1);
}

#[test]
fn registration_and_release_scenario() {
    let (env, client) = setup();
    let creator = Address::generate(&env);
    let hash = [1u8; 32];
    let deadline = env.ledger().timestamp() + 86_400;

    let first = client.register_project(&creator, 1_000, &hash, deadline).unwrap();
    assert_eq!(first.id, 0);
    assert_eq!(first.status, ProjectStatus::Funding);
    assert_eq!(first.balance, 0);

    let second = client.register_project(&creator, 700, &hash, deadline).unwrap();
    assert_eq!(second.id, 1);

    let admin = Address::generate(&env);
    let oracle = Address::generate(&env);
    client.set_oracle(&admin, &oracle);

    assert_eq!(client.verify_and_release(0, &hash), Ok(()));
    assert_eq!(client.get_project(0).unwrap().status, ProjectStatus::Completed);
    assert_eq!(client.get_project(1).unwrap().status, ProjectStatus::Funding);
    assert_eq!(client.get_project(1), Ok(second));
}

#[test]
fn releasing_one_project_leaves_the_others() {
    let (env, client) = setup();
    let creator = Address::generate(&env);
    let a = client.register_project(&creator, 1, &[1u8; 32], 100).unwrap();
    let b = client.register_project(&creator, 2, &[2u8; 32], 200).unwrap();
    let c = client.register_project(&creator, 3, &[3u8; 32], 300).unwrap();
    client.set_oracle(&Address::generate(&env), &Address::generate(&env));

    assert_eq!(client.verify_and_release(b.id, &[2u8; 32]), Ok(()));

    assert_eq!(client.get_project(a.id), Ok(a));
    assert_eq!(
        client.get_project(b.id),
        Ok(Project { status: ProjectStatus::Completed, ..b })
    );
    assert_eq!(client.get_project(c.id), Ok(c));
    assert_eq!(client.project_count(), 3);
}

#[test]
fn one_invocation_can_register_and_release() {
    let (env, client) = setup();
    let creator = Address::generate(&env);
    let oracle = Address::generate(&env);
    let hash = [21u8; 32];

    client.invoke(|ledger| {
        let first = register_project_at(ledger, creator.clone(), 5, hash, 10, 9).unwrap();
        let second = register_project_at(ledger, creator.clone(), 6, hash, 10, 9).unwrap();
        assert_eq!((first.id, second.id), (0, 1));
        set_oracle(ledger, &creator, &oracle);
        assert_eq!(verify_and_release(ledger, 1, &hash), Ok(()));
        assert_eq!(get_project(ledger, 0), Ok(first));
        assert_eq!(
            get_project(ledger, 1),
            Ok(Project { status: ProjectStatus::Completed, ..second })
        );
        assert!(ledger.timestamp() < 9);
    });
    assert_eq!(client.project_count(), 2);
}

#[test]
fn hashes_match_compares_every_byte() {
    let hash = [10u8; 32];
    assert!(hashes_match(&hash, &[10u8; 32]));
    assert!(hashes_match(&[0u8; 32], &[0u8; 32]));
    for position in 0..32 {
        let mut other = hash;
        other[position] = 11;
        assert!(!hashes_match(&hash, &other));
        assert!(!hashes_match(&other, &hash));
    }
}

#[test]
fn errors_carry_their_messages() {
    assert_eq!(RegistryError::InvalidGoal.message(), "goal must be positive");
    assert_eq!(RegistryError::InvalidDeadline.message(), "deadline must be in the future");
    assert_eq!(RegistryError::NotFound.message(), "project not found");
    assert_eq!(RegistryError::NotConfigured.message(), "oracle not set");
    assert_eq!(RegistryError::AlreadyCompleted.message(), "project already completed");
    assert_eq!(
        RegistryError::HashMismatch.message(),
        "proof verification failed: hash mismatch"
    );
}
