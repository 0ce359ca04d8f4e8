use vstd::prelude::*;
use crate::level::{Severity, DEBUG_FLOOR};

verus! {

/// Whether the adapter is the process's logging backend. The only transition
/// is from `Unregistered` to `Registered`.
#[derive(Clone, Copy, Debug, PartialEq, Eq, Structural)]
pub enum RegistrationState {
    Unregistered,
    Registered,
}

/// The registration state together with the threshold records are held to.
pub struct RegistrarModel {
    pub state: RegistrationState,
    pub threshold: Severity,
}

/// The model of a registrar that nothing has registered yet; its threshold is
/// the default `Debug` floor.
pub open spec fn initial_model() -> RegistrarModel {
    RegistrarModel { state: RegistrationState::Unregistered, threshold: DEBUG_FLOOR }
}

/// One registration attempt from model `m`, where `installed` tells whether
/// the process's logging facility accepted the adapter as its backend. It
/// succeeds only the first time and only if the facility accepted it; a
/// failed attempt changes nothing.
pub open spec fn register_step(m: RegistrarModel, installed: bool) -> (RegistrarModel, bool) {
    if m.state == RegistrationState::Unregistered && installed {
        (RegistrarModel { state: RegistrationState::Registered, threshold: DEBUG_FLOOR }, true)
    } else {
        (m, false)
    }
}

/// The one-time registration of the adapter as the process's logging
/// backend. Exclusive access (`&mut self`) makes each attempt atomic with
/// respect to the others.
pub struct Registrar {
    state: RegistrationState,
    threshold: Severity,
}

impl View for Registrar {
    type V = RegistrarModel;

    closed spec fn view(&self) -> RegistrarModel {
        RegistrarModel { state: self.state, threshold: self.threshold }
    }
}

/// Relies on log::set_max_level: stores the process-wide maximum level that
/// records are checked against before they reach the backend.
#[verifier::external_body]
fn publish_max_level(s: Severity) {
    log::set_max_level(
        match s {
            Severity::Error => log::LevelFilter::Error,
            Severity::Warn => log::LevelFilter::Warn,
            Severity::Info => log::LevelFilter::Info,
            Severity::Debug => log::LevelFilter::Debug,
            Severity::Trace => log::LevelFilter::Trace,
        },
    )
}

impl Registrar {
    pub fn new() -> (r: Registrar)
        ensures
            r@ == initial_model(),
    {
        Registrar { state: RegistrationState::Unregistered, threshold: DEBUG_FLOOR }
    }

    pub fn state(&self) -> (r: RegistrationState)
        ensures
            r == self@.state,
    {
        self.state
    }

    pub fn is_registered(&self) -> (r: bool)
        ensures
            r == (self@.state == RegistrationState::Registered),
    {
        self.state == RegistrationState::Registered
    }

    pub fn threshold(&self) -> (r: Severity)
        ensures
            r == self@.threshold,
    {
        self.threshold
    }

    /// Records one registration attempt; `installed` tells whether the
    /// process's logging facility accepted the adapter as its backend.
    /// Returns `true` on the first successful attempt, which also sets the
    /// threshold to the `Debug` floor and publishes it as the process's
    /// maximum level; every other attempt returns `false` and changes
    /// nothing.
    pub fn register(&mut self, installed: bool) -> (r: bool)
        ensures
            (final(self)@, r) == register_step(old(self)@, installed),
    {
        if self.state == RegistrationState::Unregistered && installed {
            self.state = RegistrationState::Registered;
            self.threshold = DEBUG_FLOOR;
            publish_max_level(self.threshold);
            true
        } else {
            false
        }
    }
}

/// Registration is idempotent: the first accepted attempt from a fresh
/// registrar returns `true` and leaves it `Registered` at the `Debug` floor;
/// once registered, every further attempt returns `false` and leaves the
/// state and threshold as they were.
pub proof fn lemma_register_once(m: RegistrarModel, first: bool, second: bool)
    ensures
        register_step(initial_model(), true).1,
        register_step(initial_model(), true).0.state == RegistrationState::Registered,
        register_step(initial_model(), true).0.threshold == DEBUG_FLOOR,
        m.state == RegistrationState::Registered ==> register_step(m, first) == (m, false),
        register_step(m, first).1 ==> register_step(register_step(m, first).0, second) == (
            register_step(m, first).0,
            false,
        ),
{
}

} // verus!
