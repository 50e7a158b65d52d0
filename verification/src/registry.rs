//! The registry: one level, guarded by a latch that lets it be set once.
//!
//! A registry is a value of its own: a program makes one, sets its level
//! and hands it to whatever reads the level. Reading shares the registry;
//! setting takes it exclusively, so that no other holder can step in
//! between the question whether a level was set and the storing of one.
//! That is what lets each operation say exactly what it leaves behind.

use crate::level::Verbosity;
use std::sync::atomic::AtomicBool;
use std::sync::atomic::Ordering;
use vstd::prelude::*;

verus! {

/// `parking_lot::RawRwLock`, the mechanism inside the lock. Nothing is
/// known of a value of it.
#[verifier::external_type_specification]
#[verifier::external_body]
pub struct ExRawRwLock(parking_lot::RawRwLock);

/// The lock type of `lock_api`, which `parking_lot::RwLock` is made of.
/// Nothing is known of a value of it but what [`lock_level`] names.
#[verifier::external_type_specification]
#[verifier::external_body]
#[verifier::reject_recursive_types(R)]
#[verifier::reject_recursive_types(T)]
pub struct ExRwLock<R, T: ?Sized>(parking_lot::lock_api::RwLock<R, T>);

/// What a latch holds: whether it is closed.
pub uninterp spec fn latch_closed(latch: AtomicBool) -> bool;

/// The level that a lock guards.
pub uninterp spec fn lock_level(lock: parking_lot::RwLock<Verbosity>) -> Verbosity;

/// Calls `AtomicBool::new`. Trusted: the new latch holds `closed`.
#[verifier::external_body]
fn latch_new(closed: bool) -> (latch: AtomicBool)
    ensures
        latch_closed(latch) == closed,
{
    AtomicBool::new(closed)
}

/// The answer of an exchange on a latch that held `held`, made to replace
/// `current`: the value held before, as `Ok` where it was `current` and as
/// `Err` where it was not.
pub open spec fn exchange_answer(held: bool, current: bool) -> Result<bool, bool> {
    if held == current {
        Ok(held)
    } else {
        Err(held)
    }
}

/// What a latch that held `held` holds after an exchange made to replace
/// `current` by `replacement`.
pub open spec fn exchange_leaves(held: bool, current: bool, replacement: bool) -> bool {
    if held == current {
        replacement
    } else {
        held
    }
}

/// Calls `AtomicBool::compare_exchange` on a latch that the caller holds
/// exclusively, with sequentially consistent ordering for success and for
/// failure. Trusted, as the standard library documents the call: where the
/// latch holds `current` it is given `replacement` and the answer is `Ok`,
/// else it is left alone and the answer is `Err`; either way the answer
/// carries what the latch held before.
#[verifier::external_body]
fn latch_exchange(latch: &mut AtomicBool, current: bool, replacement: bool) -> (outcome: Result<bool, bool>)
    ensures
        outcome == exchange_answer(latch_closed(*old(latch)), current),
        latch_closed(*final(latch)) == exchange_leaves(latch_closed(*old(latch)), current, replacement),
{
    latch.compare_exchange(current, replacement, Ordering::SeqCst, Ordering::SeqCst)
}

/// Calls `parking_lot::RwLock::new`. Trusted: the new lock guards
/// `initial`.
#[verifier::external_body]
fn lock_new(initial: Verbosity) -> (lock: parking_lot::RwLock<Verbosity>)
    ensures
        lock_level(lock) == initial,
{
    parking_lot::RwLock::new(initial)
}

/// Calls `parking_lot::RwLock::read`, copies the level out and gives the
/// shared access back. Trusted: the copy is the level that the lock
/// guards.
#[verifier::external_body]
fn lock_read(lock: &parking_lot::RwLock<Verbosity>) -> (level: Verbosity)
    ensures
        level == lock_level(*lock),
{
    *lock.read()
}

/// Calls `parking_lot::RwLock::write` on a lock that the caller holds
/// exclusively, puts `level` in place of what the lock guarded and gives
/// the exclusive access back. Trusted: the lock then guards `level`.
#[verifier::external_body]
fn lock_write(lock: &mut parking_lot::RwLock<Verbosity>, level: Verbosity)
    ensures
        lock_level(*final(lock)) == level,
{
    *lock.write() = level;
}

/// What a registry holds, as plain values.
pub struct RegistryState {
    /// Whether a level was set: whether the latch is closed.
    pub closed: bool,
    /// The level in force.
    pub level: Verbosity,
}

impl RegistryState {
    /// The state of a registry on which nothing was set: the latch is
    /// open, and the level is the default, `Quite`.
    pub open spec fn fresh() -> RegistryState {
        RegistryState { closed: false, level: Verbosity::Quite }
    }

    /// The state after an attempt to set `level`. The first attempt
    /// closes the latch and stores its level. On a closed latch an attempt
    /// changes nothing.
    pub open spec fn set_once(self, level: Verbosity) -> RegistryState {
        if self.closed {
            self
        } else {
            RegistryState { closed: true, level }
        }
    }

    /// The state after `level` was forced in: the level is replaced, and
    /// the latch stays as it was.
    pub open spec fn overwritten(self, level: Verbosity) -> RegistryState {
        RegistryState { closed: self.closed, level }
    }

    /// Once a level was set, no attempt to set one changes anything: an
    /// attempt leaves the latch closed, and a second attempt, whatever its
    /// level, leaves the state that the first one left.
    pub proof fn lemma_set_once_is_final(self, first: Verbosity, second: Verbosity)
        ensures
            self.set_once(first).closed,
            self.set_once(first).set_once(second) == self.set_once(first),
            self.closed ==> self.set_once(first) == self,
    {
    }

    /// On a fresh registry the first level that is set is the level in
    /// force from then on, whatever is set after it.
    pub proof fn lemma_first_set_wins(first: Verbosity, second: Verbosity)
        ensures
            RegistryState::fresh().set_once(first).level == first,
            RegistryState::fresh().set_once(first).set_once(second).level == first,
    {
    }

    /// After `level` was set on a fresh registry, the level in force is at
    /// least `Terse` exactly when `level` is not `Quite`, and `Verbose`
    /// exactly when `level` is.
    pub proof fn lemma_predicates_follow_set(level: Verbosity)
        ensures
            RegistryState::fresh().set_once(level).level.at_least(Verbosity::Terse) <==> level
                != Verbosity::Quite,
            RegistryState::fresh().set_once(level).level == Verbosity::Verbose <==> level
                == Verbosity::Verbose,
    {
    }
}

/// What a latch held before an exchange on it, whichever way the exchange
/// ended.
pub open spec fn held_before(outcome: Result<bool, bool>) -> bool {
    match outcome {
        Ok(held) => held,
        Err(held) => held,
    }
}

/// A level and the latch that guards it.
///
/// A new registry holds `Quite` and an open latch. The first call of
/// [`Verbosity::set_as_global`] closes the latch and stores its level;
/// every later call finds the latch closed and stores nothing.
pub struct Registry {
    latch: AtomicBool,
    level: parking_lot::RwLock<Verbosity>,
}

impl View for Registry {
    type V = RegistryState;

    closed spec fn view(&self) -> RegistryState {
        RegistryState { closed: latch_closed(self.latch), level: lock_level(self.level) }
    }
}

impl Registry {
    /// A registry on which nothing was set.
    pub fn new() -> (registry: Registry)
        ensures
            registry@ == RegistryState::fresh(),
    {
        Registry { latch: latch_new(false), level: lock_new(Verbosity::Quite) }
    }

    /// Whether the caller whose exchange on the latch ended in `outcome`
    /// is the first to set a level: it is when the latch was open before
    /// the exchange.
    pub fn first_to_set(outcome: Result<bool, bool>) -> (first: bool)
        ensures
            first == !held_before(outcome),
    {
        let held: bool = match outcome {
            Ok(held) => held,
            Err(held) => held,
        };
        !held
    }
}

impl Verbosity {
    /// The level in force in `registry`.
    pub fn level(registry: &Registry) -> (level: Verbosity)
        ensures
            level == registry@.level,
    {
        lock_read(&registry.level)
    }

    /// Whether the level in force in `registry` is `Quite`.
    pub fn is_quite(registry: &Registry) -> (quite: bool)
        ensures
            quite == (registry@.level == Verbosity::Quite),
    {
        Verbosity::level(registry) == Verbosity::Quite
    }

    /// Whether the level in force in `registry` is `Terse` or more: whether
    /// it is not `Quite`.
    pub fn is_terse(registry: &Registry) -> (terse: bool)
        ensures
            terse == (registry@.level != Verbosity::Quite),
            terse == registry@.level.at_least(Verbosity::Terse),
    {
        Verbosity::level(registry) != Verbosity::Quite
    }

    /// Whether the level in force in `registry` is `Verbose`.
    pub fn is_verbose(registry: &Registry) -> (verbose: bool)
        ensures
            verbose == (registry@.level == Verbosity::Verbose),
    {
        Verbosity::level(registry) == Verbosity::Verbose
    }

    /// Sets this level in `registry` if none was set there before, and
    /// changes nothing otherwise. The caller is not told which.
    pub fn set_as_global(self, registry: &mut Registry)
        ensures
            final(registry)@ == old(registry)@.set_once(self),
    {
        let outcome = latch_exchange(&mut registry.latch, false, true);
        if Registry::first_to_set(outcome) {
            lock_write(&mut registry.level, self);
        }
    }

    /// Forces this level into `registry` whatever the latch says, and
    /// leaves the latch as it is. This is for tests that need a known
    /// level; a program sets its level with [`Verbosity::set_as_global`].
    pub fn set_as_global_for_test(self, registry: &mut Registry)
        ensures
            final(registry)@ == old(registry)@.overwritten(self),
    {
        lock_write(&mut registry.level, self);
    }
}

} // verus!
