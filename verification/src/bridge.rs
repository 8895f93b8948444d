//! Bridge bookkeeping: the validator set and its quorum, the rolling
//! inbound rate limit, and per-destination outbound nonces.
//!
//! Inbound value is admitted against a cap per window. A bridge that was
//! never configured, or whose cap is zero, admits nothing. A window expires
//! once `window_start + window_size` is reached; the next admission then
//! starts a fresh window at its own timestamp. A rejected admission changes
//! nothing.
use std::collections::HashMap;
use vstd::prelude::*;
use crate::account::bytes_equal;

verus! {

broadcast use vstd::std_specs::hash::group_hash_axioms;

/// Why a bridge operation was refused.
#[derive(Clone, Copy, Debug, PartialEq, Eq, Structural)]
pub enum BridgeError {
    /// The destination's nonce has reached `u64::MAX`.
    NonceOverflow,
    /// The admission would exceed the current window's cap (or no cap is set).
    InboundCapExceeded,
    /// A window must last at least one second.
    InvalidWindowSize,
    /// Inbound amounts cannot be negative.
    NegativeAmount,
    /// The window total would leave the `i128` range.
    WindowTotalOverflow,
}

impl BridgeError {
    /// The numeric code of the error.
    pub fn code(&self) -> (r: u32)
        ensures
            r == match *self {
                BridgeError::NonceOverflow => 1u32,
                BridgeError::InboundCapExceeded => 2u32,
                BridgeError::InvalidWindowSize => 3u32,
                BridgeError::NegativeAmount => 4u32,
                BridgeError::WindowTotalOverflow => 5u32,
            },
    {
        match self {
            BridgeError::NonceOverflow => 1,
            BridgeError::InboundCapExceeded => 2,
            BridgeError::InvalidWindowSize => 3,
            BridgeError::NegativeAmount => 4,
            BridgeError::WindowTotalOverflow => 5,
        }
    }

    /// A human-readable description of the error.
    pub fn message(&self) -> (r: &'static str)
        ensures
            *self == BridgeError::NonceOverflow ==> r@ == "outbound nonce overflow"@,
            *self == BridgeError::InboundCapExceeded ==> r@
                == "inbound cap exceeded for the current window"@,
            *self == BridgeError::InvalidWindowSize ==> r@ == "window size must be > 0"@,
            *self == BridgeError::NegativeAmount ==> r@ == "inbound amount must be >= 0"@,
            *self == BridgeError::WindowTotalOverflow ==> r@ == "inbound window total overflow"@,
    {
        match self {
            BridgeError::NonceOverflow => "outbound nonce overflow",
            BridgeError::InboundCapExceeded => "inbound cap exceeded for the current window",
            BridgeError::InvalidWindowSize => "window size must be > 0",
            BridgeError::NegativeAmount => "inbound amount must be >= 0",
            BridgeError::WindowTotalOverflow => "inbound window total overflow",
        }
    }
}

/// Storage key of the outbound nonce map.
#[derive(Clone, Copy, Debug, PartialEq, Eq, Structural)]
pub enum BridgeDataKey {
    OutboundNonces,
}

/// Published for each outbound message: its destination and the nonce
/// assigned to it.
#[derive(Clone, Copy, Debug, PartialEq, Eq, Structural)]
pub struct OutboundMessageEvent {
    pub dest: u32,
    pub nonce: u64,
}

/// The byte keys of a list of validators.
pub open spec fn keys_of(v: Seq<Vec<u8>>) -> Seq<Seq<u8>> {
    v.map_values(|x: Vec<u8>| x@)
}

/// Number of distinct keys in `s`: each key counts once, where it first
/// appears.
pub open spec fn distinct_count(s: Seq<Seq<u8>>) -> nat
    decreases s.len(),
{
    if s.len() == 0 {
        0
    } else {
        distinct_count(s.drop_last()) + if s.drop_last().contains(s.last()) {
            0nat
        } else {
            1nat
        }
    }
}

/// Signatures needed out of `n` distinct validators: strictly more than two
/// thirds.
pub open spec fn quorum_threshold(n: nat) -> nat {
    n * 2 / 3 + 1
}

/// The validators of the bridge, each identified by its public key bytes.
/// A key listed twice counts once.
#[derive(Clone, Debug)]
pub struct ValidatorSet {
    pub validators: Vec<Vec<u8>>,
}

impl ValidatorSet {
    pub open spec fn keys(&self) -> Seq<Seq<u8>> {
        keys_of(self.validators@)
    }

    /// Whether the key at position `i` already appears before it.
    fn occurs_before(&self, i: usize) -> (r: bool)
        requires
            i < self.validators.len(),
        ensures
            r == self.keys().take(i as int).contains(self.keys()[i as int]),
    {
        let mut j: usize = 0;
        while j < i
            invariant
                i < self.validators.len(),
                0 <= j <= i,
                forall|k: int| 0 <= k < j ==> self.keys()[k] != self.keys()[i as int],
            decreases i - j,
        {
            if bytes_equal(&self.validators[j], &self.validators[i]) {
                assert(self.keys().take(i as int)[j as int] == self.keys()[i as int]);
                return true;
            }
            j = j + 1;
        }
        false
    }

    /// Number of distinct validator keys.
    pub fn len(&self) -> (r: usize)
        ensures
            r == distinct_count(self.keys()),
    {
        let n = self.validators.len();
        let mut count: usize = 0;
        let mut i: usize = 0;
        while i < n
            invariant
                n == self.validators.len(),
                0 <= i <= n,
                count == distinct_count(self.keys().take(i as int)),
                count <= i,
            decreases n - i,
        {
            let seen = self.occurs_before(i);
            assert(self.keys().take(i + 1).drop_last() =~= self.keys().take(i as int));
            if !seen {
                count = count + 1;
            }
            i = i + 1;
        }
        assert(self.keys().take(n as int) =~= self.keys());
        count
    }

    /// Signatures required for a quorum: `len() * 2 / 3 + 1`, counting
    /// distinct keys only.
    pub fn threshold(&self) -> (r: usize)
        ensures
            r == quorum_threshold(distinct_count(self.keys())),
    {
        let n = self.len();
        let r = n / 3 * 2 + (n % 3) * 2 / 3 + 1;
        assert(r == n * 2 / 3 + 1) by (nonlinear_arith)
            requires
                r == n / 3 * 2 + (n % 3) * 2 / 3 + 1,
                n >= 0,
        {
            assert(n == 3 * (n / 3) + n % 3);
        }
        r
    }

    /// Whether `key` is one of the validators.
    pub fn contains_key(&self, key: &Vec<u8>) -> (r: bool)
        ensures
            r == self.keys().contains(key@),
    {
        let n = self.validators.len();
        let mut i: usize = 0;
        while i < n
            invariant
                n == self.validators.len(),
                0 <= i <= n,
                forall|k: int| 0 <= k < i ==> self.keys()[k] != key@,
            decreases n - i,
        {
            if bytes_equal(&self.validators[i], key) {
                assert(self.keys()[i as int] == key@);
                return true;
            }
            i = i + 1;
        }
        false
    }

    /// The raw validator keys, duplicates and order preserved.
    pub fn to_bytes_vec(&self) -> (r: Vec<Vec<u8>>)
        ensures
            keys_of(r@) == self.keys(),
    {
        let n = self.validators.len();
        let mut out: Vec<Vec<u8>> = Vec::new();
        let mut i: usize = 0;
        while i < n
            invariant
                n == self.validators.len(),
                0 <= i <= n,
                keys_of(out@) == self.keys().take(i as int),
                out@.len() == i,
                self.keys().len() == n,
            decreases n - i,
        {
            let copy = copy_bytes(&self.validators[i]);
            let ghost prev = out@;
            out.push(copy);
            assert(out@ == prev.push(copy));
            assert(keys_of(out@).len() == i + 1);
            assert forall|k: int| 0 <= k < i + 1 implies #[trigger] keys_of(out@)[k] == self.keys()[k] by {
                assert(keys_of(out@)[k] == out@[k]@);
                if k < i {
                    assert(out@[k] == prev[k]);
                    assert(keys_of(prev)[k] == prev[k]@);
                    assert(keys_of(prev)[k] == self.keys().take(i as int)[k]);
                } else {
                    assert(out@[k] == copy);
                    assert(self.keys()[k] == self.validators@[k]@);
                }
            }
            i = i + 1;
            assert(keys_of(out@) =~= self.keys().take(i as int));
        }
        assert(self.keys().take(n as int) =~= self.keys());
        out
    }
}

/// A copy of a byte string.
fn copy_bytes(v: &Vec<u8>) -> (r: Vec<u8>)
    ensures
        r@ == v@,
{
    let mut out: Vec<u8> = Vec::new();
    let n = v.len();
    let mut i: usize = 0;
    while i < n
        invariant
            n == v.len(),
            0 <= i <= n,
            out@ == v@.take(i as int),
        decreases n - i,
    {
        out.push(v[i]);
        i = i + 1;
        assert(out@ =~= v@.take(i as int));
    }
    assert(v@.take(n as int) =~= v@);
    out
}

/// The nonce the next outbound message to `dest` will receive.
pub open spec fn nonce_of(m: Map<u32, u64>, dest: u32) -> u64 {
    if m.contains_key(dest) {
        m[dest]
    } else {
        0
    }
}

/// Whether the window that started at `start` and lasts `size` seconds has
/// ended by `now`. A window whose end does not fit in `u64` never ends.
pub open spec fn window_expired(start: u64, size: u64, now: u64) -> bool {
    start + size <= u64::MAX && now >= start + size
}

/// The bridge's state: its validators, the inbound window and the outbound
/// nonces per destination.
pub struct Bridge {
    pub validators: ValidatorSet,
    pub max_per_window: i128,
    pub window_size: u64,
    pub window_start: u64,
    pub window_inbound_total: i128,
    pub outbound_nonces: HashMap<u32, u64>,
}

impl Bridge {
    /// The inbound window is consistent: its total is not negative and, when
    /// positive, within the cap.
    pub open spec fn window_ok(&self) -> bool {
        &&& 0 <= self.window_inbound_total
        &&& (self.window_inbound_total == 0 || self.window_inbound_total <= self.max_per_window)
    }

    /// A bridge with the given validators, no inbound cap (fail-closed) and
    /// no outbound messages.
    pub fn new(validators: ValidatorSet) -> (r: Bridge)
        ensures
            r.validators.keys() == validators.keys(),
            r.max_per_window == 0,
            r.window_size == 0,
            r.window_start == 0,
            r.window_inbound_total == 0,
            r.outbound_nonces@ == Map::<u32, u64>::empty(),
            r.window_ok(),
    {
        Bridge {
            validators,
            max_per_window: 0,
            window_size: 0,
            window_start: 0,
            window_inbound_total: 0,
            outbound_nonces: HashMap::new(),
        }
    }

    /// Configures the inbound cap and window length, opening a fresh window
    /// at `current_time`.
    pub fn set_inbound_cap(&mut self, max_per_window: i128, window_size: u64, current_time: u64) -> (res:
        Result<(), BridgeError>)
        ensures
            window_size == 0 ==> {
                &&& res == Err::<(), BridgeError>(BridgeError::InvalidWindowSize)
                &&& final(self).max_per_window == old(self).max_per_window
                &&& final(self).window_size == old(self).window_size
                &&& final(self).window_start == old(self).window_start
                &&& final(self).window_inbound_total == old(self).window_inbound_total
            },
            window_size > 0 ==> {
                &&& res is Ok
                &&& final(self).max_per_window == max_per_window
                &&& final(self).window_size == window_size
                &&& final(self).window_start == current_time
                &&& final(self).window_inbound_total == 0
            },
            final(self).validators == old(self).validators,
            final(self).outbound_nonces@ == old(self).outbound_nonces@,
            old(self).window_ok() ==> final(self).window_ok(),
    {
        if window_size == 0 {
            return Err(BridgeError::InvalidWindowSize);
        }
        self.max_per_window = max_per_window;
        self.window_size = window_size;
        self.window_start = current_time;
        self.window_inbound_total = 0;
        Ok(())
    }

    /// Admits `amount` of inbound value at `current_time`.
    ///
    /// Negative amounts are refused; so is everything while the cap is zero.
    /// If the current window has ended, a fresh one starts at
    /// `current_time` with nothing admitted yet. The admission is refused
    /// when the window total would overflow or exceed the cap; a refusal
    /// changes nothing.
    pub fn admit_inbound(&mut self, amount: i128, current_time: u64) -> (res: Result<
        (),
        BridgeError,
    >)
        ensures
            final(self).validators == old(self).validators,
            final(self).outbound_nonces@ == old(self).outbound_nonces@,
            final(self).max_per_window == old(self).max_per_window,
            final(self).window_size == old(self).window_size,
            res is Err ==> final(self).window_start == old(self).window_start
                && final(self).window_inbound_total == old(self).window_inbound_total,
            ({
                let expired = window_expired(
                    old(self).window_start,
                    old(self).window_size,
                    current_time,
                );
                let start = if expired {
                    current_time
                } else {
                    old(self).window_start
                };
                let base: int = if expired {
                    0
                } else {
                    old(self).window_inbound_total as int
                };
                if amount < 0 {
                    res == Err::<(), BridgeError>(BridgeError::NegativeAmount)
                } else if old(self).max_per_window == 0 {
                    res == Err::<(), BridgeError>(BridgeError::InboundCapExceeded)
                } else if base + amount > i128::MAX {
                    res == Err::<(), BridgeError>(BridgeError::WindowTotalOverflow)
                } else if base + amount > old(self).max_per_window {
                    res == Err::<(), BridgeError>(BridgeError::InboundCapExceeded)
                } else {
                    &&& res is Ok
                    &&& final(self).window_start == start
                    &&& final(self).window_inbound_total == base + amount
                }
            }),
            old(self).window_ok() ==> final(self).window_ok(),
    {
        if amount < 0 {
            return Err(BridgeError::NegativeAmount);
        }
        if self.max_per_window == 0 {
            return Err(BridgeError::InboundCapExceeded);
        }
        let expired = match self.window_start.checked_add(self.window_size) {
            Some(window_end) => current_time >= window_end,
            None => false,
        };
        let (start, base) = if expired {
            (current_time, 0i128)
        } else {
            (self.window_start, self.window_inbound_total)
        };
        let new_total = match base.checked_add(amount) {
            Some(t) => t,
            None => return Err(BridgeError::WindowTotalOverflow),
        };
        if new_total > self.max_per_window {
            return Err(BridgeError::InboundCapExceeded);
        }
        self.window_start = start;
        self.window_inbound_total = new_total;
        Ok(())
    }

    /// Returns the nonce for the next outbound message to `dest` and
    /// advances it; nonces start at zero and increase by one per message.
    pub fn next_outbound_nonce(&mut self, dest: u32) -> (res: Result<u64, BridgeError>)
        ensures
            final(self).validators == old(self).validators,
            final(self).max_per_window == old(self).max_per_window,
            final(self).window_size == old(self).window_size,
            final(self).window_start == old(self).window_start,
            final(self).window_inbound_total == old(self).window_inbound_total,
            ({
                let current = nonce_of(old(self).outbound_nonces@, dest);
                if current == u64::MAX {
                    &&& res == Err::<u64, BridgeError>(BridgeError::NonceOverflow)
                    &&& final(self).outbound_nonces@ == old(self).outbound_nonces@
                } else {
                    &&& res == Ok::<u64, BridgeError>(current)
                    &&& final(self).outbound_nonces@ == old(self).outbound_nonces@.insert(
                        dest,
                        (current + 1) as u64,
                    )
                }
            }),
    {
        let current = match self.outbound_nonces.get(&dest) {
            Some(n) => *n,
            None => 0,
        };
        let next = match current.checked_add(1) {
            Some(n) => n,
            None => return Err(BridgeError::NonceOverflow),
        };
        self.outbound_nonces.insert(dest, next);
        Ok(current)
    }

    /// The nonce the next outbound message to `dest` will receive.
    pub fn peek_outbound_nonce(&self, dest: u32) -> (r: u64)
        ensures
            r == nonce_of(self.outbound_nonces@, dest),
    {
        match self.outbound_nonces.get(&dest) {
            Some(n) => *n,
            None => 0,
        }
    }
}

/// Counting distinct keys never exceeds the raw count, and a non-empty list
/// has at least one distinct key.
pub proof fn law_distinct_count_bounds(s: Seq<Seq<u8>>)
    ensures
        distinct_count(s) <= s.len(),
        s.len() > 0 ==> distinct_count(s) >= 1,
    decreases s.len(),
{
    if s.len() > 0 {
        law_distinct_count_bounds(s.drop_last());
        if s.len() > 1 {
            law_distinct_count_bounds(s.drop_last());
        } else {
            assert(s.drop_last().len() == 0);
        }
    }
}

/// `distinct_count` is the number of elements of the set of keys.
pub proof fn law_distinct_count_is_set_size(s: Seq<Seq<u8>>)
    ensures
        s.to_set().finite(),
        distinct_count(s) == s.to_set().len(),
    decreases s.len(),
{
    broadcast use vstd::seq_lib::group_seq_properties, vstd::set::group_set_axioms;

    vstd::seq_lib::seq_to_set_is_finite(s);
    if s.len() == 0 {
        assert(s.to_set() =~= Set::<Seq<u8>>::empty());
    } else {
        let init = s.drop_last();
        law_distinct_count_is_set_size(init);
        assert(init.push(s.last()) =~= s);
        init.lemma_push_to_set_commute(s.last());
        if init.contains(s.last()) {
            assert(init.to_set().insert(s.last()) =~= init.to_set());
        }
    }
}

/// The quorum threshold of a non-empty set lies between one and the
/// number of distinct validators; an empty set still demands one signature.
pub proof fn law_threshold_bounds(n: nat)
    ensures
        n == 0 ==> quorum_threshold(n) == 1,
        n >= 1 ==> 1 <= quorum_threshold(n) <= n,
{
    if n >= 1 {
        assert(n * 2 / 3 + 1 <= n) by (nonlinear_arith)
            requires
                n >= 1,
        ;
    }
}

/// Repeated keys never raise the quorum: the threshold over distinct keys
/// is at most the threshold the raw list length would give.
pub proof fn law_duplicates_do_not_raise_threshold(s: Seq<Seq<u8>>)
    ensures
        quorum_threshold(distinct_count(s)) <= quorum_threshold(s.len()),
{
    law_distinct_count_bounds(s);
    let d = distinct_count(s);
    let n = s.len();
    assert(d * 2 / 3 <= n * 2 / 3) by (nonlinear_arith)
        requires
            d <= n,
    ;
}

/// A successful admission never lets the window total exceed the cap: the
/// value admitted within one window is bounded by `max_per_window`.
pub proof fn law_admitted_within_cap(b: Bridge)
    requires
        b.window_ok(),
        b.window_inbound_total > 0,
    ensures
        b.window_inbound_total <= b.max_per_window,
{
}

} // verus!
