//! Per-peer circuit breaker bookkeeping.
//!
//! The breaker of each peer (closed, open, half-open, with its failure
//! counting and cooldown) is run by the circuit breaker crate. This module
//! holds the decisions made around it: which failures are handed to the
//! breaker as failures, how the breaker's answer is unwrapped, the
//! circuit state observed for each peer from those answers, and the
//! statistics read from the observed states.

use vstd::prelude::*;

use crate::classification::{ErrorClassificationExt, ErrorProfile};
use crate::errors::{ErrorSeverity, ResourceError, ServiceError};

verus! {

/// Current state of a circuit breaker.
#[derive(PartialEq, Eq, Structural, Clone, Copy, Debug)]
pub enum CircuitState {
    /// Circuit is closed, allowing all requests.
    Closed,
    /// Circuit is open, rejecting all requests.
    Open,
    /// Circuit is half-open, testing with limited requests.
    HalfOpen,
}

/// A peer's identity: its 32-byte public key read as four big-endian
/// 64-bit words.
#[derive(PartialEq, Eq, Structural, Clone, Copy, Debug, Hash)]
pub struct PeerId {
    pub w0: u64,
    pub w1: u64,
    pub w2: u64,
    pub w3: u64,
}

/// The big-endian value of the first `n` bytes of `s`.
pub open spec fn be_value(s: Seq<u8>, n: nat) -> nat
    decreases n,
{
    if n == 0 {
        0
    } else {
        be_value(s, (n - 1) as nat) * 256 + s[n - 1] as nat
    }
}

/// The big-endian 64-bit word made of bytes `8k .. 8k + 8` of `s`.
pub open spec fn be_word(s: Seq<u8>, k: int) -> nat {
    be_value(s.subrange(8 * k, 8 * k + 8), 8)
}

proof fn lemma_be_value_bound(s: Seq<u8>, n: nat)
    requires
        n <= s.len(),
    ensures
        be_value(s, n) < pow256(n),
    decreases n,
{
    if n > 0 {
        lemma_be_value_bound(s, (n - 1) as nat);
        let p = pow256((n - 1) as nat);
        let v = be_value(s, (n - 1) as nat);
        let b = s[n - 1] as nat;
        assert(v * 256 + b < p * 256) by (nonlinear_arith)
            requires
                v < p,
                b < 256,
        ;
    }
}

/// 256 to the power `n`.
pub open spec fn pow256(n: nat) -> nat
    decreases n,
{
    if n == 0 {
        1
    } else {
        pow256((n - 1) as nat) * 256
    }
}

/// Reads the big-endian word at bytes `start .. start + 8`.
fn read_be_word(bytes: &[u8; 32], start: usize) -> (r: u64)
    requires
        start + 8 <= 32,
    ensures
        r as nat == be_value(bytes@.subrange(start as int, start as int + 8), 8),
{
    let ghost s = bytes@.subrange(start as int, start as int + 8);
    let mut acc: u64 = 0;
    let mut i: usize = 0;
    while i < 8
        invariant
            i <= 8,
            start + 8 <= 32,
            s == bytes@.subrange(start as int, start as int + 8),
            acc as nat == be_value(s, i as nat),
        decreases 8 - i,
    {
        proof {
            lemma_be_value_bound(s, (i + 1) as nat);
            lemma_pow256_8();
            lemma_pow256_monotone((i + 1) as nat, 8);
        }
        let b = bytes[start + i];
        assert(s[i as int] == b);
        acc = acc * 256 + b as u64;
        i = i + 1;
    }
    acc
}

proof fn lemma_pow256_8()
    ensures
        pow256(8) == 0x1_0000_0000_0000_0000nat,
{
    reveal_with_fuel(pow256, 9);
}

proof fn lemma_pow256_monotone(a: nat, b: nat)
    requires
        a <= b,
    ensures
        pow256(a) <= pow256(b),
    decreases b,
{
    if a < b {
        lemma_pow256_monotone(a, (b - 1) as nat);
    }
}

impl PeerId {
    /// The peer identity of a 32-byte public key.
    pub open spec fn of_bytes(bytes: Seq<u8>) -> PeerId {
        PeerId {
            w0: be_word(bytes, 0) as u64,
            w1: be_word(bytes, 1) as u64,
            w2: be_word(bytes, 2) as u64,
            w3: be_word(bytes, 3) as u64,
        }
    }

    pub fn from_bytes(bytes: &[u8; 32]) -> (r: PeerId)
        ensures
            r == PeerId::of_bytes(bytes@),
            r.w0 as nat == be_word(bytes@, 0),
            r.w1 as nat == be_word(bytes@, 1),
            r.w2 as nat == be_word(bytes@, 2),
            r.w3 as nat == be_word(bytes@, 3),
    {
        PeerId {
            w0: read_be_word(bytes, 0),
            w1: read_be_word(bytes, 8),
            w2: read_be_word(bytes, 16),
            w3: read_be_word(bytes, 24),
        }
    }

    /// The connection id derived from the peer: the big-endian value of
    /// the key's first eight bytes, truncated to the platform's word size.
    pub fn connection_id(&self) -> (r: usize)
        ensures
            r == self.w0 as usize,
    {
        self.w0 as usize
    }
}

/// How a failure reaches the breaker: application failures are handed
/// back as a successful call carrying the error, so that they never count
/// as failures (the breaker records them as successes); all other
/// failures are handed to the breaker as failures.
pub open spec fn guarded<T>(
    input: Result<T, ErrorProfile>,
    output: Result<Result<T, ServiceError>, ServiceError>,
) -> bool {
    match input {
        Ok(v) => output == Ok::<Result<T, ServiceError>, ServiceError>(Ok(v)),
        Err(e) => {
            let sev = e.default_severity();
            if sev == ErrorSeverity::Application {
                &&& output matches Ok(Err(se))
                &&& se.spec_severity() == sev
                &&& se.spec_message() == e.message@
            } else {
                &&& output matches Err(se)
                &&& se.spec_severity() == sev
                &&& se.spec_message() == e.message@
            }
        },
    }
}

/// Wraps the outcome of an operation for the breaker (see [`guarded`]).
pub fn guard_outcome<T>(result: Result<T, ErrorProfile>) -> (r: Result<Result<T, ServiceError>, ServiceError>)
    ensures
        guarded(result, r),
{
    match result {
        Ok(v) => Ok(Ok(v)),
        Err(e) => {
            let service_error = ServiceError::from_error(e);
            match service_error.severity() {
                ErrorSeverity::Application => Ok(Err(service_error)),
                ErrorSeverity::Infrastructure | ErrorSeverity::SystemFailure => Err(service_error),
            }
        },
    }
}

/// The breaker's failure answer.
#[derive(Clone, Debug)]
pub enum BreakerFailure {
    /// The circuit is open; the operation was not run.
    Open,
    /// The operation failed.
    Operation(ServiceError),
    /// The breaker itself failed.
    Internal(String),
}

/// Unwraps the breaker's answer to a guarded operation: a successful call
/// carrying an application error becomes an operation failure.
pub fn unwrap_guarded<T>(r: Result<Result<T, ServiceError>, BreakerFailure>) -> (out: Result<T, BreakerFailure>)
    ensures
        match r {
            Ok(Ok(v)) => out == Ok::<T, BreakerFailure>(v),
            Ok(Err(e)) => out == Err::<T, BreakerFailure>(BreakerFailure::Operation(e)),
            Err(f) => out == Err::<T, BreakerFailure>(f),
        },
{
    match r {
        Ok(Ok(v)) => Ok(v),
        Ok(Err(app_error)) => Err(BreakerFailure::Operation(app_error)),
        Err(f) => Err(f),
    }
}

/// What one protected call tells about the peer's circuit.
#[derive(PartialEq, Eq, Structural, Clone, Copy, Debug)]
pub enum CallOutcome {
    /// The operation ran and succeeded.
    Succeeded,
    /// The breaker rejected the call.
    Rejected,
    /// The operation (or the breaker) failed while the circuit admitted it.
    Failed,
}

/// The outcome of a protected call.
pub fn outcome_of<T>(r: &Result<T, BreakerFailure>) -> (o: CallOutcome)
    ensures
        r is Ok ==> o == CallOutcome::Succeeded,
        r matches Err(BreakerFailure::Open) ==> o == CallOutcome::Rejected,
        r matches Err(BreakerFailure::Operation(_)) ==> o == CallOutcome::Failed,
        r matches Err(BreakerFailure::Internal(_)) ==> o == CallOutcome::Failed,
{
    match r {
        Ok(_) => CallOutcome::Succeeded,
        Err(BreakerFailure::Open) => CallOutcome::Rejected,
        Err(_) => CallOutcome::Failed,
    }
}

/// The observed state after a call, given the last observation `prior`
/// and the state the breaker reports once the call is over: a success
/// shows the reported state (closed, or half-open while the circuit is
/// still testing recovery), a rejection shows the circuit open, and a
/// failed call leaves the last observation as it was.
pub open spec fn observe(
    prior: Option<CircuitState>,
    outcome: CallOutcome,
    reported: CircuitState,
) -> Option<CircuitState> {
    match outcome {
        CallOutcome::Succeeded => Some(reported),
        CallOutcome::Rejected => Some(CircuitState::Open),
        CallOutcome::Failed => prior,
    }
}

/// The map of `(peer, state)` pairs, later pairs taking precedence.
pub open spec fn map_of(s: Seq<(PeerId, CircuitState)>) -> Map<PeerId, CircuitState>
    decreases s.len(),
{
    if s.len() == 0 {
        Map::empty()
    } else {
        map_of(s.drop_last()).insert(s.last().0, s.last().1)
    }
}

/// No peer appears twice.
pub open spec fn distinct_peers(s: Seq<(PeerId, CircuitState)>) -> bool {
    forall|i: int, j: int| 0 <= i < j < s.len() ==> #[trigger] s[i].0 != #[trigger] s[j].0
}

proof fn lemma_map_of_dom(s: Seq<(PeerId, CircuitState)>, p: PeerId)
    ensures
        map_of(s).dom().contains(p) <==> exists|i: int| 0 <= i < s.len() && s[i].0 == p,
    decreases s.len(),
{
    if s.len() > 0 {
        lemma_map_of_dom(s.drop_last(), p);
        if map_of(s).dom().contains(p) && p != s.last().0 {
            let i = choose|i: int| 0 <= i < s.drop_last().len() && s.drop_last()[i].0 == p;
            assert(s[i].0 == p);
        }
        if exists|i: int| 0 <= i < s.len() && s[i].0 == p {
            let i = choose|i: int| 0 <= i < s.len() && s[i].0 == p;
            if i < s.len() - 1 {
                assert(s.drop_last()[i].0 == p);
            }
        }
    }
}

proof fn lemma_map_of_at(s: Seq<(PeerId, CircuitState)>, i: int)
    requires
        distinct_peers(s),
        0 <= i < s.len(),
    ensures
        map_of(s).dom().contains(s[i].0),
        map_of(s)[s[i].0] == s[i].1,
    decreases s.len(),
{
    if i < s.len() - 1 {
        let t = s.drop_last();
        assert(distinct_peers(t)) by {
            assert forall|a: int, b: int| 0 <= a < b < t.len() implies #[trigger] t[a].0 != #[trigger] t[b].0 by {
                assert(t[a] == s[a] && t[b] == s[b]);
            }
        }
        lemma_map_of_at(t, i);
        assert(t[i] == s[i]);
        assert(s[i].0 != s[s.len() - 1].0);
    }
}

proof fn lemma_distinct_drop_last(s: Seq<(PeerId, CircuitState)>)
    requires
        distinct_peers(s),
        s.len() > 0,
    ensures
        distinct_peers(s.drop_last()),
{
    let t = s.drop_last();
    assert forall|a: int, b: int| 0 <= a < b < t.len() implies #[trigger] t[a].0 != #[trigger] t[b].0 by {
        assert(t[a] == s[a] && t[b] == s[b]);
    }
}

proof fn lemma_map_of_update(s: Seq<(PeerId, CircuitState)>, i: int, v: CircuitState)
    requires
        distinct_peers(s),
        0 <= i < s.len(),
    ensures
        map_of(s.update(i, (s[i].0, v))) == map_of(s).insert(s[i].0, v),
        distinct_peers(s.update(i, (s[i].0, v))),
    decreases s.len(),
{
    let u = s.update(i, (s[i].0, v));
    assert forall|a: int, b: int| 0 <= a < b < u.len() implies #[trigger] u[a].0 != #[trigger] u[b].0 by {
        assert(u[a].0 == s[a].0 && u[b].0 == s[b].0);
    }
    if i == s.len() - 1 {
        assert(u.drop_last() == s.drop_last());
        lemma_map_of_dom(s.drop_last(), s[i].0);
        assert(map_of(s).insert(s[i].0, v) =~= map_of(s.drop_last()).insert(s[i].0, v));
    } else {
        let t = s.drop_last();
        lemma_distinct_drop_last(s);
        assert(t[i] == s[i]);
        lemma_map_of_update(t, i, v);
        assert(u.drop_last() == t.update(i, (t[i].0, v)));
        assert(s[i].0 != s.last().0);
        assert(map_of(u) =~= map_of(s).insert(s[i].0, v));
    }
}

/// The circuit state last observed for each peer.
pub struct PeerStates {
    entries: Vec<(PeerId, CircuitState)>,
}

impl View for PeerStates {
    type V = Map<PeerId, CircuitState>;

    closed spec fn view(&self) -> Map<PeerId, CircuitState> {
        map_of(self.entries@)
    }
}

impl PeerStates {
    #[verifier::type_invariant]
    spec fn well_formed(self) -> bool {
        distinct_peers(self.entries@)
    }

    /// No peer observed yet.
    pub fn new() -> (r: PeerStates)
        ensures
            r@ == Map::<PeerId, CircuitState>::empty(),
    {
        PeerStates { entries: Vec::new() }
    }

    fn find(&self, peer: &PeerId) -> (r: Option<usize>)
        ensures
            match r {
                Some(i) => i < self.entries@.len() && self.entries@[i as int].0 == *peer,
                None => forall|i: int| 0 <= i < self.entries@.len() ==> self.entries@[i].0 != *peer,
            },
    {
        let mut i: usize = 0;
        while i < self.entries.len()
            invariant
                i <= self.entries@.len(),
                forall|k: int| 0 <= k < i ==> self.entries@[k].0 != *peer,
            decreases self.entries@.len() - i,
        {
            if self.entries[i].0 == *peer {
                return Some(i);
            }
            i = i + 1;
        }
        None
    }

    /// The state last observed for `peer`.
    pub fn get(&self, peer: &PeerId) -> (r: Option<CircuitState>)
        ensures
            r == (if self@.dom().contains(*peer) { Some(self@[*peer]) } else { None::<CircuitState> }),
    {
        proof {
            use_type_invariant(self);
            lemma_map_of_dom(self.entries@, *peer);
        }
        match self.find(peer) {
            Some(i) => {
                proof {
                    lemma_map_of_at(self.entries@, i as int);
                }
                Some(self.entries[i].1)
            },
            None => None,
        }
    }

    /// Records `state` as the state observed for `peer`.
    pub fn set(&mut self, peer: PeerId, state: CircuitState)
        ensures
            final(self)@ == old(self)@.insert(peer, state),
    {
        proof {
            use_type_invariant(&*self);
        }
        match self.find(&peer) {
            Some(i) => {
                proof {
                    lemma_map_of_update(self.entries@, i as int, state);
                }
                let mut entries = Vec::new();
                std::mem::swap(&mut entries, &mut self.entries);
                entries.set(i, (peer, state));
                self.entries = entries;
            },
            None => {
                let ghost s = self.entries@;
                proof {
                    lemma_map_of_dom(s, peer);
                }
                let mut entries = Vec::new();
                std::mem::swap(&mut entries, &mut self.entries);
                entries.push((peer, state));
                proof {
                    assert(entries@.drop_last() == s);
                    assert forall|a: int, b: int| 0 <= a < b < entries@.len() implies
                        #[trigger] entries@[a].0 != #[trigger] entries@[b].0 by {
                        if b < s.len() {
                            assert(entries@[a] == s[a] && entries@[b] == s[b]);
                        } else {
                            assert(entries@[a] == s[a]);
                        }
                    }
                }
                self.entries = entries;
            },
        }
    }

    /// Updates the observation of `peer` after a protected call whose
    /// outcome is `outcome` and after which the breaker reports `reported`
    /// (see [`observe`]); a failed call changes nothing.
    pub fn record(&mut self, peer: PeerId, outcome: CallOutcome, reported: CircuitState)
        ensures
            final(self)@ == match observe(
                if old(self)@.dom().contains(peer) { Some(old(self)@[peer]) } else { None },
                outcome,
                reported,
            ) {
                Some(state) => old(self)@.insert(peer, state),
                None => old(self)@,
            },
            outcome == CallOutcome::Failed ==> final(self)@ == old(self)@,
    {
        match outcome {
            CallOutcome::Succeeded => self.set(peer, reported),
            CallOutcome::Rejected => self.set(peer, CircuitState::Open),
            CallOutcome::Failed => {},
        }
    }
}


/// The peers whose observed circuit is open.
pub open spec fn open_peers(m: Map<PeerId, CircuitState>) -> Set<PeerId> {
    m.dom().filter(|p: PeerId| m[p] == CircuitState::Open)
}

proof fn lemma_map_of_finite(s: Seq<(PeerId, CircuitState)>)
    ensures
        map_of(s).dom().finite(),
    decreases s.len(),
{
    if s.len() > 0 {
        lemma_map_of_finite(s.drop_last());
    }
}

proof fn lemma_open_peers_insert(m: Map<PeerId, CircuitState>, p: PeerId, v: CircuitState)
    requires
        m.dom().finite(),
        !m.dom().contains(p),
    ensures
        open_peers(m.insert(p, v)).finite(),
        open_peers(m.insert(p, v)).len() == open_peers(m).len() + (if v == CircuitState::Open { 1int } else { 0int }),
{
    let m2 = m.insert(p, v);
    assert(m2.dom().finite());
    m2.dom().lemma_len_filter(|q: PeerId| m2[q] == CircuitState::Open);
    m.dom().lemma_len_filter(|q: PeerId| m[q] == CircuitState::Open);
    if v == CircuitState::Open {
        assert(open_peers(m2) =~= open_peers(m).insert(p));
    } else {
        assert(open_peers(m2) =~= open_peers(m));
    }
}

impl PeerStates {
    /// Whether the circuit last observed for `peer` is open.
    pub fn is_open(&self, peer: &PeerId) -> (r: bool)
        ensures
            r == (self@.dom().contains(*peer) && self@[*peer] == CircuitState::Open),
    {
        match self.get(peer) {
            Some(CircuitState::Open) => true,
            _ => false,
        }
    }

    /// Whether the circuit last observed for `peer` is half-open.
    pub fn is_half_open(&self, peer: &PeerId) -> (r: bool)
        ensures
            r == (self@.dom().contains(*peer) && self@[*peer] == CircuitState::HalfOpen),
    {
        match self.get(peer) {
            Some(CircuitState::HalfOpen) => true,
            _ => false,
        }
    }

    /// The number of peers whose circuit was last observed open.
    pub fn open_circuit_count(&self) -> (r: usize)
        ensures
            open_peers(self@).finite(),
            r == open_peers(self@).len(),
    {
        proof {
            use_type_invariant(self);
        }
        let ghost s = self.entries@;
        let mut count: usize = 0;
        let mut i: usize = 0;
        proof {
            assert(s.take(0) =~= Seq::<(PeerId, CircuitState)>::empty());
            assert(open_peers(map_of(s.take(0))) =~= Set::<PeerId>::empty());
        }
        while i < self.entries.len()
            invariant
                s == self.entries@,
                distinct_peers(s),
                i <= s.len(),
                count <= i,
                open_peers(map_of(s.take(i as int))).finite(),
                count == open_peers(map_of(s.take(i as int))).len(),
            decreases s.len() - i,
        {
            let ghost t = s.take(i as int);
            proof {
                assert(s.take(i + 1).drop_last() =~= t);
                assert(s.take(i + 1).last() == s[i as int]);
                lemma_map_of_finite(t);
                lemma_map_of_dom(t, s[i as int].0);
                if map_of(t).dom().contains(s[i as int].0) {
                    let k = choose|k: int| 0 <= k < t.len() && t[k].0 == s[i as int].0;
                    assert(t[k] == s[k]);
                }
                lemma_open_peers_insert(map_of(t), s[i as int].0, s[i as int].1);
            }
            if self.entries[i].1 == CircuitState::Open {
                count = count + 1;
            }
            i = i + 1;
        }
        proof {
            assert(s.take(s.len() as int) =~= s);
        }
        count
    }

    /// A copy of the observed states.
    pub fn snapshot(&self) -> (r: PeerStates)
        ensures
            r@ == self@,
    {
        proof {
            use_type_invariant(self);
        }
        let mut entries: Vec<(PeerId, CircuitState)> = Vec::new();
        let mut i: usize = 0;
        while i < self.entries.len()
            invariant
                i <= self.entries@.len(),
                entries@ == self.entries@.take(i as int),
            decreases self.entries@.len() - i,
        {
            entries.push(self.entries[i]);
            i = i + 1;
            proof {
                assert(entries@ =~= self.entries@.take(i as int));
            }
        }
        proof {
            assert(self.entries@.take(self.entries@.len() as int) =~= self.entries@);
        }
        PeerStates { entries }
    }
}

/// The failure handed to the breaker when an RPC handler fails: the
/// handler's error, displayed and marked according to its severity, so
/// that the breaker's classification gives back the same severity.
pub fn callback_failure(error: &ResourceError) -> (r: ErrorProfile)
    ensures
        r.default_severity() == error.spec_severity(),
        r.message@ == (if error.spec_severity() == ErrorSeverity::SystemFailure {
            "System failure: "@ + error.spec_text()
        } else {
            error.spec_text()
        }),
{
    let plain = ErrorProfile::from_message_string(error.text());
    match error.severity() {
        ErrorSeverity::Application => plain.as_application(),
        ErrorSeverity::Infrastructure => plain.as_infrastructure(),
        ErrorSeverity::SystemFailure => plain.as_system_failure(),
    }
}

/// The error returned to the client for a call that the breaker refused
/// or that failed under its protection: a rejection names the peer, an
/// operation failure keeps the failure's text and severity, and an
/// internal breaker failure is an application error.
pub fn breaker_failure_to_resource_error(f: BreakerFailure, peer_id: String) -> (r: ResourceError)
    ensures
        match f {
            BreakerFailure::Open => r matches ResourceError::CircuitBreakerOpen { peer_id: p } && p@ == peer_id@,
            BreakerFailure::Operation(e) => r.is_callback_error(e.spec_text(), e.spec_severity()),
            BreakerFailure::Internal(m) => r.is_callback_error(
                "Circuit breaker internal error: "@ + m@,
                ErrorSeverity::Application,
            ),
        },
{
    match f {
        BreakerFailure::Open => ResourceError::CircuitBreakerOpen { peer_id },
        BreakerFailure::Operation(e) => {
            let severity = e.severity();
            ResourceError::CallbackError { message: e.text(), severity, context: None }
        },
        BreakerFailure::Internal(m) => {
            let mut message = "Circuit breaker internal error: ".to_owned();
            message.append(m.as_str());
            ResourceError::CallbackError { message, severity: ErrorSeverity::Application, context: None }
        },
    }
}

} // verus!
