//! The boundary to the Soroban host: the outside types that values of this
//! crate carry, and the host calls whose behaviour is taken on trust.
//!
//! The persistent storage of the executing contract is modelled as three
//! tables, one for each kind of value that is kept in it. A storage key is a
//! pair of a category and an index, and each table holds the entries whose
//! key is of its category and whose value is of its kind.
//!
//! The host ends the whole invocation where it cannot serve a call. Every
//! call below therefore asks for [`host_ready`], and every write hands it
//! on: the writes keep each kind of value under the slots of its own
//! category. An address is a reference into the objects of one host, so a
//! write also asks that the address it stores is [`on_host`].
//!
//! The host takes every call through a shared handle. The setters below ask
//! for the handle by `&mut` all the same: a write changes what the handle
//! stands for, and this is how a contract can speak of the storage before
//! and after it. The rest of the crate reaches them through
//! `storage::Ledger`, which holds the one handle of an invocation and cannot
//! be copied.

use soroban_sdk::{Address, Env};
use vstd::prelude::*;

verus! {

/// `soroban_sdk::Env`, the handle to the ledger that hosts the contract.
#[verifier::external_type_specification]
#[verifier::external_body]
pub struct ExEnv(Env);

/// `soroban_sdk::Address`, an identity on the ledger.
#[verifier::external_type_specification]
#[verifier::external_body]
pub struct ExAddress(Address);

/// `Clone::clone` of `soroban_sdk::Address`: the copy stands for the same
/// identity as the address it was made from.
pub assume_specification[ <Address as Clone>::clone ](address: &Address) -> (copy: Address)
    ensures
        copy == *address,
;

/// A key of the persistent storage: a category and an index within it.
pub type Slot = (u32, u64);

/// A project as the storage holds it under the slot of its id: creator, goal,
/// balance, proof hash, deadline, and whether it is completed.
pub type StoredProject = (Address, i128, i128, [u8; 32], u64, bool);

/// Category of the keys under which counts are kept.
pub const COUNT_SLOTS: u32 = 0;

/// Category of the keys under which projects are kept.
pub const PROJECT_SLOTS: u32 = 1;

/// Category of the keys under which addresses are kept.
pub const ADDRESS_SLOTS: u32 = 2;

/// Whether the host serves the storage and clock calls that are made on
/// `env`: a contract is executing, the ledger's header is at hand, and every
/// entry under a slot of a category is live and holds a value of that
/// category's kind. The host also meters its work, and ends an invocation
/// that goes over its limits; that the limits cover the calls of the
/// invocation is assumed with `host_ready`, and no call is shown to keep
/// within them.
pub uninterp spec fn host_ready(env: Env) -> bool;

/// Whether `address` refers to an object of the host behind `env`. Addresses
/// that the host hands out do; one made on another host does not.
pub uninterp spec fn on_host(env: Env, address: Address) -> bool;

/// Whatever address was on the host of `before` is on the host of `after`.
pub open spec fn addresses_kept(before: Env, after: Env) -> bool {
    forall|address: Address| on_host(before, address) ==> #[trigger] on_host(after, address)
}

/// The counts in the persistent storage of the executing contract.
pub uninterp spec fn persistent_counts(env: Env) -> Map<Slot, u64>;

/// The projects in the persistent storage of the executing contract.
pub uninterp spec fn persistent_projects(env: Env) -> Map<Slot, StoredProject>;

/// The addresses in the persistent storage of the executing contract.
pub uninterp spec fn persistent_addresses(env: Env) -> Map<Slot, Address>;

/// `soroban_sdk::storage::Persistent::get`, read as a `u64`: the count under
/// `slot`, `None` where the storage has no entry there. The host would end
/// the invocation on an entry of another kind; a ready host holds none under
/// a slot of this category.
#[verifier::external_body]
pub(crate) fn persistent_get_count(env: &Env, slot: Slot) -> (found: Option<u64>)
    requires
        slot.0 == COUNT_SLOTS,
        host_ready(*env),
    ensures
        found == if persistent_counts(*env).contains_key(slot) {
            Some(persistent_counts(*env)[slot])
        } else {
            None
        },
{
    env.storage().persistent().get(&slot)
}

/// `soroban_sdk::storage::Persistent::set` with a `u64`: the entry under
/// `slot` becomes `count`, no other entry changes, and the host stays ready
/// and keeps its addresses.
#[verifier::external_body]
pub(crate) fn persistent_set_count(env: &mut Env, slot: Slot, count: u64)
    requires
        slot.0 == COUNT_SLOTS,
        host_ready(*old(env)),
    ensures
        host_ready(*final(env)),
        addresses_kept(*old(env), *final(env)),
        persistent_counts(*final(env)) == persistent_counts(*old(env)).insert(slot, count),
        persistent_projects(*final(env)) == persistent_projects(*old(env)),
        persistent_addresses(*final(env)) == persistent_addresses(*old(env)),
{
    env.storage().persistent().set(&slot, &count);
}

/// `soroban_sdk::storage::Persistent::get`, read as a project tuple: the
/// project under `slot`, `None` where the storage has no entry there. The
/// host would end the invocation on an entry of another kind; a ready host
/// holds none under a slot of this category. The creator that comes back is
/// an address of this host.
#[verifier::external_body]
pub(crate) fn persistent_get_project(env: &Env, slot: Slot) -> (found: Option<StoredProject>)
    requires
        slot.0 == PROJECT_SLOTS,
        host_ready(*env),
    ensures
        found == if persistent_projects(*env).contains_key(slot) {
            Some(persistent_projects(*env)[slot])
        } else {
            None
        },
        found matches Some(project) ==> on_host(*env, project.0),
{
    env.storage().persistent().get(&slot)
}

/// `soroban_sdk::storage::Persistent::set` with a project tuple: the entry
/// under `slot` becomes `project`, no other entry changes, and the host
/// stays ready and keeps its addresses. The creator has to be an address of
/// this host: the host stores the object that the address refers to in its
/// own table.
#[verifier::external_body]
pub(crate) fn persistent_set_project(env: &mut Env, slot: Slot, project: &StoredProject)
    requires
        slot.0 == PROJECT_SLOTS,
        host_ready(*old(env)),
        on_host(*old(env), project.0),
    ensures
        host_ready(*final(env)),
        addresses_kept(*old(env), *final(env)),
        persistent_projects(*final(env)) == persistent_projects(*old(env)).insert(slot, *project),
        persistent_counts(*final(env)) == persistent_counts(*old(env)),
        persistent_addresses(*final(env)) == persistent_addresses(*old(env)),
{
    env.storage().persistent().set(&slot, project);
}

/// `soroban_sdk::storage::Persistent::get`, read as an `Address`: the
/// address under `slot`, `None` where the storage has no entry there. The
/// host would end the invocation on an entry of another kind; a ready host
/// holds none under a slot of this category. The address that comes back is
/// one of this host.
#[verifier::external_body]
pub(crate) fn persistent_get_address(env: &Env, slot: Slot) -> (found: Option<Address>)
    requires
        slot.0 == ADDRESS_SLOTS,
        host_ready(*env),
    ensures
        found == if persistent_addresses(*env).contains_key(slot) {
            Some(persistent_addresses(*env)[slot])
        } else {
            None
        },
        found matches Some(address) ==> on_host(*env, address),
{
    env.storage().persistent().get(&slot)
}

/// `soroban_sdk::storage::Persistent::set` with an `Address`: the entry
/// under `slot` becomes `address`, no other entry changes, and the host
/// stays ready and keeps its addresses. The address has to be one of this
/// host: the host stores the object that it refers to in its own table.
#[verifier::external_body]
pub(crate) fn persistent_set_address(env: &mut Env, slot: Slot, address: &Address)
    requires
        slot.0 == ADDRESS_SLOTS,
        host_ready(*old(env)),
        on_host(*old(env), *address),
    ensures
        host_ready(*final(env)),
        addresses_kept(*old(env), *final(env)),
        persistent_addresses(*final(env)) == persistent_addresses(*old(env)).insert(
            slot,
            *address,
        ),
        persistent_counts(*final(env)) == persistent_counts(*old(env)),
        persistent_projects(*final(env)) == persistent_projects(*old(env)),
{
    env.storage().persistent().set(&slot, address);
}

/// `soroban_sdk::ledger::Ledger::timestamp`: the close time of the current
/// ledger, in seconds since the Unix epoch. Nothing is claimed of the value.
#[verifier::external_body]
pub(crate) fn ledger_timestamp(env: &Env) -> u64
    requires
        host_ready(*env),
{
    env.ledger().timestamp()
}

} // verus!
