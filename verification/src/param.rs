//! System parameters: what a system borrows from the state, and how.
//!
//! A system declares its needs as a list of capability descriptors drawn
//! from a fixed, closed set: shared or exclusive access to one resource, one
//! local resource or one message queue, or to a whole storage.  Before a
//! system runs, the runtime checks the list against the state:
//!
//! * if a named resource, local resource or message type is absent, the
//!   system is skipped for this invocation (the soft-dependency contract);
//! * if two descriptors in one list would alias the same mutable cell, the
//!   system is skipped as well — the borrow ledger reports the conflict
//!   instead of invoking anything with aliased exclusive access.

use crate::state::StateModel;
use crate::state::State;
use vstd::prelude::*;

verus! {

/// Shared access to the resource stored under `key`.
#[derive(Clone, Copy, Debug, PartialEq, Eq, Structural)]
pub struct Re {
    pub key: u64,
}

impl Re {
    /// Describes shared access to the resource stored under `key`.
    pub fn new(key: u64) -> (r: Self)
        ensures
            r.key == key,
    {
        Re { key }
    }
}

/// Exclusive access to the resource stored under `key`.
#[derive(Clone, Copy, Debug, PartialEq, Eq, Structural)]
pub struct ReM {
    pub key: u64,
}

impl ReM {
    /// Describes exclusive access to the resource stored under `key`.
    pub fn new(key: u64) -> (r: Self)
        ensures
            r.key == key,
    {
        ReM { key }
    }
}

/// Shared access to the local resource stored under `key`.
#[derive(Clone, Copy, Debug, PartialEq, Eq, Structural)]
pub struct LoRe {
    pub key: u64,
}

impl LoRe {
    /// Describes shared access to the local resource stored under `key`.
    pub fn new(key: u64) -> (r: Self)
        ensures
            r.key == key,
    {
        LoRe { key }
    }
}

/// Exclusive access to the local resource stored under `key`.
#[derive(Clone, Copy, Debug, PartialEq, Eq, Structural)]
pub struct LoReM {
    pub key: u64,
}

impl LoReM {
    /// Describes exclusive access to the local resource stored under `key`.
    pub fn new(key: u64) -> (r: Self)
        ensures
            r.key == key,
    {
        LoReM { key }
    }
}

/// Shared access to the message queue of the type `key`.
#[derive(Clone, Copy, Debug, PartialEq, Eq, Structural)]
pub struct Msg {
    pub key: u64,
}

impl Msg {
    /// Describes shared access to the message queue of the type `key`.
    pub fn new(key: u64) -> (r: Self)
        ensures
            r.key == key,
    {
        Msg { key }
    }
}

/// Exclusive access to the message queue of the type `key`.
#[derive(Clone, Copy, Debug, PartialEq, Eq, Structural)]
pub struct MsgM {
    pub key: u64,
}

impl MsgM {
    /// Describes exclusive access to the message queue of the type `key`.
    pub fn new(key: u64) -> (r: Self)
        ensures
            r.key == key,
    {
        MsgM { key }
    }
}

/// Exclusive access to the whole resource storage.
#[derive(Clone, Copy, Debug, PartialEq, Eq, Structural)]
pub struct ReAll;

/// Exclusive access to the whole local-resource storage.
#[derive(Clone, Copy, Debug, PartialEq, Eq, Structural)]
pub struct LoReAll;

/// Exclusive access to the whole message storage.
#[derive(Clone, Copy, Debug, PartialEq, Eq, Structural)]
pub struct MsgAll;

/// One capability descriptor in a system's parameter list.
#[derive(Clone, Copy, Debug, PartialEq, Eq, Structural)]
pub enum Param {
    Re(Re),
    ReM(ReM),
    LoRe(LoRe),
    LoReM(LoReM),
    Msg(Msg),
    MsgM(MsgM),
    ReAll(ReAll),
    LoReAll(LoReAll),
    MsgAll(MsgAll),
}

/// The storage namespace a descriptor touches: 0 for resources, 1 for local
/// resources, 2 for message queues.
pub open spec fn param_namespace(p: Param) -> int {
    match p {
        Param::Re(_) | Param::ReM(_) | Param::ReAll(_) => 0,
        Param::LoRe(_) | Param::LoReM(_) | Param::LoReAll(_) => 1,
        Param::Msg(_) | Param::MsgM(_) | Param::MsgAll(_) => 2,
    }
}

/// The single cell a descriptor touches, or `None` for a whole storage.
pub open spec fn param_target(p: Param) -> Option<u64> {
    match p {
        Param::Re(r) => Some(r.key),
        Param::ReM(r) => Some(r.key),
        Param::LoRe(r) => Some(r.key),
        Param::LoReM(r) => Some(r.key),
        Param::Msg(m) => Some(m.key),
        Param::MsgM(m) => Some(m.key),
        Param::ReAll(_) | Param::LoReAll(_) | Param::MsgAll(_) => None,
    }
}

/// Whether the descriptor asks for exclusive (mutable) access.
pub open spec fn param_exclusive(p: Param) -> bool {
    match p {
        Param::Re(_) | Param::LoRe(_) | Param::Msg(_) => false,
        Param::ReM(_) | Param::LoReM(_) | Param::MsgM(_) => true,
        Param::ReAll(_) | Param::LoReAll(_) | Param::MsgAll(_) => true,
    }
}

/// Two descriptors alias when they overlap in the same namespace and at
/// least one of them is exclusive.
pub open spec fn params_alias(a: Param, b: Param) -> bool {
    &&& param_namespace(a) == param_namespace(b)
    &&& (param_exclusive(a) || param_exclusive(b))
    &&& (param_target(a) is None || param_target(b) is None || param_target(a) == param_target(b))
}

/// The borrow ledger finds fault: some pair of descriptors in the list aliases.
pub open spec fn params_conflict(ps: Seq<Param>) -> bool {
    exists|i: int, j: int| 0 <= i < j < ps.len() && params_alias(ps[i], ps[j])
}

/// Whether one descriptor can be resolved against the state.
pub open spec fn param_resolvable<R, L, M>(p: Param, s: StateModel<R, L, M>) -> bool {
    match p {
        Param::Re(r) => s.resources.contains_key(r.key),
        Param::ReM(r) => s.resources.contains_key(r.key),
        Param::LoRe(r) => s.local_resources.contains_key(r.key),
        Param::LoReM(r) => s.local_resources.contains_key(r.key),
        Param::Msg(m) => s.messages.contains_key(m.key),
        Param::MsgM(m) => s.messages.contains_key(m.key),
        Param::ReAll(_) | Param::LoReAll(_) | Param::MsgAll(_) => true,
    }
}

/// Whether every descriptor in the list can be resolved against the state.
pub open spec fn params_resolvable<R, L, M>(ps: Seq<Param>, s: StateModel<R, L, M>) -> bool {
    forall|i: int| 0 <= i < ps.len() ==> param_resolvable(#[trigger] ps[i], s)
}

/// What happened to one system at one invocation attempt.
#[derive(Clone, Copy, Debug, PartialEq, Eq, Structural)]
pub enum Decision {
    /// All parameters resolved without aliasing; the system was invoked once.
    Ran,
    /// Some required resource, local resource or message type was absent;
    /// the system was skipped for this invocation.
    SkippedMissing,
    /// Two parameters would have aliased the same mutable cell; the system
    /// was skipped rather than invoked with aliased exclusive access.
    SkippedAliasing,
}

/// The decision for one parameter list against one state: absence is checked
/// first, then the borrow ledger; only a clean list lets the system run.
pub open spec fn decision_for<R, L, M>(ps: Seq<Param>, s: StateModel<R, L, M>) -> Decision {
    if !params_resolvable(ps, s) {
        Decision::SkippedMissing
    } else if params_conflict(ps) {
        Decision::SkippedAliasing
    } else {
        Decision::Ran
    }
}

fn param_exclusive_exec(p: &Param) -> (r: bool)
    ensures
        r == param_exclusive(*p),
{
    match p {
        Param::Re(_) | Param::LoRe(_) | Param::Msg(_) => false,
        Param::ReM(_) | Param::LoReM(_) | Param::MsgM(_) => true,
        Param::ReAll(_) | Param::LoReAll(_) | Param::MsgAll(_) => true,
    }
}

fn param_target_exec(p: &Param) -> (r: Option<u64>)
    ensures
        r == param_target(*p),
{
    match p {
        Param::Re(x) => Some(x.key),
        Param::ReM(x) => Some(x.key),
        Param::LoRe(x) => Some(x.key),
        Param::LoReM(x) => Some(x.key),
        Param::Msg(x) => Some(x.key),
        Param::MsgM(x) => Some(x.key),
        Param::ReAll(_) | Param::LoReAll(_) | Param::MsgAll(_) => None,
    }
}

fn params_alias_exec(a: &Param, b: &Param) -> (r: bool)
    ensures
        r == params_alias(*a, *b),
{
    let same_namespace = match (a, b) {
        (Param::Re(_) | Param::ReM(_) | Param::ReAll(_),
            Param::Re(_) | Param::ReM(_) | Param::ReAll(_)) => true,
        (Param::LoRe(_) | Param::LoReM(_) | Param::LoReAll(_),
            Param::LoRe(_) | Param::LoReM(_) | Param::LoReAll(_)) => true,
        (Param::Msg(_) | Param::MsgM(_) | Param::MsgAll(_),
            Param::Msg(_) | Param::MsgM(_) | Param::MsgAll(_)) => true,
        _ => false,
    };
    let overlapping = match (param_target_exec(a), param_target_exec(b)) {
        (Some(x), Some(y)) => x == y,
        _ => true,
    };
    same_namespace && (param_exclusive_exec(a) || param_exclusive_exec(b)) && overlapping
}

/// The borrow ledger: reports whether any two descriptors in the list would
/// alias the same mutable cell.
pub fn check_conflict(ps: &Vec<Param>) -> (r: bool)
    ensures
        r == params_conflict(ps@),
{
    let n = ps.len();
    let mut i: usize = 0;
    while i < n
        invariant
            n == ps@.len(),
            i <= n,
            forall|a: int, b: int| 0 <= a < b < ps@.len() && a < i ==> !params_alias(
                ps@[a],
                ps@[b],
            ),
        decreases n - i,
    {
        let mut j: usize = i + 1;
        while j < n
            invariant
                n == ps@.len(),
                i < n,
                i < j <= n,
                forall|b: int| i < b < j ==> !params_alias(ps@[i as int], ps@[b]),
            decreases n - j,
        {
            if params_alias_exec(&ps[i], &ps[j]) {
                return true;
            }
            j += 1;
        }
        i += 1;
    }
    false
}

/// Checks every descriptor in the list against the state.
pub fn check_resolvable<R, L, M>(ps: &Vec<Param>, state: &State<R, L, M>) -> (r: bool)
    ensures
        r == params_resolvable(ps@, state@),
{
    let n = ps.len();
    let mut i: usize = 0;
    while i < n
        invariant
            n == ps@.len(),
            i <= n,
            forall|a: int| 0 <= a < i ==> param_resolvable(#[trigger] ps@[a], state@),
        decreases n - i,
    {
        let ok = match &ps[i] {
            Param::Re(r) => state.resources.contains(r.key),
            Param::ReM(r) => state.resources.contains(r.key),
            Param::LoRe(r) => state.local_resources.contains(r.key),
            Param::LoReM(r) => state.local_resources.contains(r.key),
            Param::Msg(m) => state.messages.contains(m.key),
            Param::MsgM(m) => state.messages.contains(m.key),
            Param::ReAll(_) | Param::LoReAll(_) | Param::MsgAll(_) => true,
        };
        if !ok {
            return false;
        }
        i += 1;
    }
    true
}

/// Decides whether a system with parameter list `ps` runs against the given
/// state, and if not, why.
pub fn decide<R, L, M>(ps: &Vec<Param>, state: &State<R, L, M>) -> (d: Decision)
    ensures
        d == decision_for(ps@, state@),
{
    if !check_resolvable(ps, state) {
        Decision::SkippedMissing
    } else if check_conflict(ps) {
        Decision::SkippedAliasing
    } else {
        Decision::Ran
    }
}

/// A system that names a resource its state never holds is never invoked:
/// as long as the key stays absent, the decision is to skip it, whatever else
/// the list asks for.
pub proof fn law_absent_dependency_skips<R, L, M>(ps: Seq<Param>, s: StateModel<R, L, M>, i: int)
    requires
        0 <= i < ps.len(),
        !param_resolvable(ps[i], s),
    ensures
        decision_for(ps, s) == Decision::SkippedMissing,
{
}

} // verus!
