//! Trace identifiers that follow one request through the commands it runs, and
//! the audit record of one command execution.
use std::collections::hash_map::RandomState;
use std::hash::BuildHasher;
use vstd::prelude::*;
use crate::text::{concat, digit_char, hex, owned, push_char, push_hex};

verus! {

broadcast use vstd::string::group_string_axioms;

#[derive(Debug, Clone, PartialEq, Eq)]
pub struct TraceContext {
    pub trace_id: String,
    pub request_id: String,
}

/// `n` in lower-case hexadecimal, padded with zeros to sixteen digits (`{:016x}`).
pub open spec fn hex16(n: nat) -> Seq<char> {
    let h = hex(n);
    if h.len() < 16 {
        Seq::new((16 - h.len()) as nat, |i: int| '0') + h
    } else {
        h
    }
}

/// An identifier made of a prefix, a dash and sixteen hexadecimal digits.
pub open spec fn is_id_with_prefix(id: Seq<char>, prefix: Seq<char>) -> bool {
    exists|n: u64| id == prefix + "-"@ + hex16(n as nat)
}

/// A fresh set of `RandomState` keys: `RandomState::new` hands out keys that
/// differ from one call to the next within a thread. Nothing is stated of the
/// keys, which are random.
#[verifier::external_body]
fn fresh_random_state() -> RandomState {
    RandomState::new()
}

/// `BuildHasher::hash_one` of the unit value under the given keys. The result
/// depends on the keys, which are random, so nothing is stated of it.
#[verifier::external_body]
fn hash_unit_with(state: &RandomState) -> u64 {
    state.hash_one(())
}

/// `prefix`, a dash and `n` padded to sixteen hexadecimal digits.
pub fn format_id(prefix: &str, n: u64) -> (s: String)
    ensures
        s@ == prefix@ + "-"@ + hex16(n as nat),
{
    let mut digits = String::new();
    push_hex(&mut digits, n);
    let mut padded = String::new();
    let len = digits.as_str().unicode_len();
    let mut k: usize = if len < 16 { len } else { 16 };
    while k < 16
        invariant
            len == hex(n as nat).len(),
            k <= 16,
            k < 16 ==> len <= k,
            len >= 16 ==> k == 16 && padded@.len() == 0,
            len < 16 ==> len <= k,
            len < 16 ==> padded@ == Seq::new((k - len) as nat, |i: int| '0'),
        decreases 16 - k,
    {
        push_char(&mut padded, '0');
        assert(padded@ =~= Seq::new((k + 1 - len) as nat, |i: int| '0'));
        k = k + 1;
    }
    padded.append(digits.as_str());
    let head = concat(prefix, "-");
    let s = concat(head.as_str(), padded.as_str());
    proof {
        if len < 16 {
            assert(s@ =~= prefix@ + "-"@ + hex16(n as nat));
        } else {
            assert(padded@ =~= hex(n as nat));
        }
    }
    s
}

/// A new identifier with the given prefix, drawn afresh on every call.
fn next_id(prefix: &str) -> (s: String)
    ensures
        is_id_with_prefix(s@, prefix@),
{
    let state = fresh_random_state();
    let n = hash_unit_with(&state);
    format_id(prefix, n)
}

impl TraceContext {
    pub fn new(request_id: &str) -> (t: Self)
        ensures
            t.request_id@ == request_id@,
            is_id_with_prefix(t.trace_id@, "trace"@),
    {
        TraceContext { trace_id: next_id("trace"), request_id: owned(request_id) }
    }

    pub fn generate() -> (t: Self)
        ensures
            is_id_with_prefix(t.request_id@, "req"@),
            is_id_with_prefix(t.trace_id@, "trace"@),
    {
        let request_id = next_id("req");
        Self::new(request_id.as_str())
    }
}

#[derive(Debug, Clone, PartialEq, Eq)]
pub struct AuditEvent {
    pub trace_id: String,
    pub request_id: String,
    pub command_id: String,
    pub duration_ms: u128,
    pub exit_code: i32,
    pub noop: bool,
}

/// The value of a lower-case hexadecimal digit.
pub open spec fn hex_digit_value(c: char) -> int {
    if (c as u32) < 58 {
        (c as u32) - 48
    } else {
        (c as u32) - 87
    }
}

/// The number a hexadecimal text denotes.
pub open spec fn hex_value(s: Seq<char>) -> int
    decreases s.len(),
{
    if s.len() == 0 {
        0
    } else {
        16 * hex_value(s.drop_last()) + hex_digit_value(s.last())
    }
}

/// A hexadecimal rendering denotes the number it renders.
proof fn lemma_hex_value(n: nat)
    ensures
        hex_value(hex(n)) == n,
    decreases n,
{
    lemma_digit_value(n % 16);
    let h = hex(n);
    if n < 16 {
        assert(n % 16 == n);
        assert(h.drop_last() =~= Seq::<char>::empty());
        assert(hex_value(h.drop_last()) == 0);
        assert(h.last() == digit_char(n));
        assert(hex_value(h) == 16 * hex_value(h.drop_last()) + hex_digit_value(h.last()));
    } else {
        lemma_hex_value(n / 16);
        assert(h.drop_last() =~= hex(n / 16));
        assert(h.last() == digit_char(n % 16));
        assert(hex_value(h) == 16 * hex_value(h.drop_last()) + hex_digit_value(h.last()));
        assert(16 * (n / 16) + n % 16 == n);
    }
}

/// A digit character denotes its digit.
proof fn lemma_digit_value(d: nat)
    requires
        d < 16,
    ensures
        hex_digit_value(digit_char(d)) == d,
{
    if d < 10 {
        assert((((48 + d) as u32) as char) as u32 == 48 + d);
    } else {
        assert((((87 + d) as u32) as char) as u32 == 87 + d);
    }
}

/// Leading zeros do not change the number a text denotes.
proof fn lemma_hex_value_zeros(k: nat, h: Seq<char>)
    ensures
        hex_value(Seq::new(k, |i: int| '0') + h) == hex_value(h),
    decreases k + h.len(),
{
    let z = Seq::new(k, |i: int| '0');
    if h.len() == 0 {
        assert(z + h =~= z);
        if k > 0 {
            assert(z.drop_last() =~= Seq::new((k - 1) as nat, |i: int| '0'));
            lemma_hex_value_zeros((k - 1) as nat, Seq::empty());
            assert(Seq::new((k - 1) as nat, |i: int| '0') + Seq::<char>::empty() =~= Seq::new(
                (k - 1) as nat,
                |i: int| '0',
            ));
        }
    } else {
        assert((z + h).drop_last() =~= z + h.drop_last());
        lemma_hex_value_zeros(k, h.drop_last());
    }
}

/// Padding to sixteen digits keeps the number.
pub proof fn lemma_hex16_value(n: nat)
    ensures
        hex_value(hex16(n)) == n,
{
    lemma_hex_value(n);
    let h = hex(n);
    if h.len() < 16 {
        lemma_hex_value_zeros((16 - h.len()) as nat, h);
    }
}

/// Identifiers with the same prefix and different numbers differ.
pub proof fn lemma_numbered_ids_differ(prefix: Seq<char>, a: nat, b: nat)
    requires
        a != b,
    ensures
        prefix + "-"@ + hex16(a) != prefix + "-"@ + hex16(b),
{
    lemma_hex16_value(a);
    lemma_hex16_value(b);
    let p = prefix + "-"@;
    if p + hex16(a) == p + hex16(b) {
        assert(hex16(a) =~= (p + hex16(a)).subrange(p.len() as int, (p + hex16(a)).len() as int));
        assert(hex16(b) =~= (p + hex16(b)).subrange(p.len() as int, (p + hex16(b)).len() as int));
    }
}

/// The counter that numbers trace identifiers, one number per identifier.
pub struct TraceIds {
    next: u64,
}

/// The number after `n`, wrapping to zero after the largest.
pub open spec fn after(n: u64) -> u64 {
    if n == u64::MAX {
        0
    } else {
        (n + 1) as u64
    }
}

impl TraceIds {
    /// The number the next identifier gets.
    pub closed spec fn next_number(&self) -> u64 {
        self.next
    }

    /// A counter that starts at one.
    pub fn new() -> (c: Self)
        ensures
            c.next_number() == 1,
    {
        TraceIds { next: 1 }
    }

    /// `prefix`, a dash and the next number in sixteen hexadecimal digits; the
    /// counter moves on.
    pub fn next_id(&mut self, prefix: &str) -> (s: String)
        ensures
            s@ == prefix@ + "-"@ + hex16(old(self).next_number() as nat),
            final(self).next_number() == after(old(self).next_number()),
    {
        let n = self.next;
        self.next = if n == u64::MAX {
            0
        } else {
            n + 1
        };
        format_id(prefix, n)
    }

    /// A context for `request_id` whose trace id carries the next number.
    pub fn context(&mut self, request_id: &str) -> (t: TraceContext)
        ensures
            t.request_id@ == request_id@,
            t.trace_id@ == "trace-"@ + hex16(old(self).next_number() as nat),
            final(self).next_number() == after(old(self).next_number()),
    {
        let trace_id = self.next_id("trace");
        proof {
            reveal_strlit("trace-");
            reveal_strlit("trace");
            reveal_strlit("-");
            assert("trace-"@ =~= "trace"@ + "-"@);
        }
        TraceContext { trace_id, request_id: owned(request_id) }
    }

    /// A context with a fresh request id and trace id, numbered one after the
    /// other.
    pub fn generate(&mut self) -> (t: TraceContext)
        ensures
            t.request_id@ == "req-"@ + hex16(old(self).next_number() as nat),
            t.trace_id@ == "trace-"@ + hex16(after(old(self).next_number()) as nat),
            final(self).next_number() == after(after(old(self).next_number())),
    {
        let request_id = self.next_id("req");
        proof {
            reveal_strlit("req-");
            reveal_strlit("req");
            reveal_strlit("-");
            assert("req-"@ =~= "req"@ + "-"@);
        }
        self.context(request_id.as_str())
    }
}

/// Two contexts drawn one after the other from a counter that does not wrap
/// between them have different trace ids and different request ids.
pub proof fn lemma_generated_ids_differ(n: u64)
    requires
        n < u64::MAX - 1,
    ensures
        "trace-"@ + hex16(after(n) as nat) != "trace-"@ + hex16(after(after(after(n))) as nat),
        "req-"@ + hex16(n as nat) != "req-"@ + hex16(after(after(n)) as nat),
{
    reveal_strlit("trace-");
    reveal_strlit("trace");
    reveal_strlit("req-");
    reveal_strlit("req");
    reveal_strlit("-");
    assert("trace-"@ =~= "trace"@ + "-"@);
    assert("req-"@ =~= "req"@ + "-"@);
    lemma_numbered_ids_differ("trace"@, after(n) as nat, after(after(after(n))) as nat);
    lemma_numbered_ids_differ("req"@, n as nat, after(after(n)) as nat);
}

} // verus!
