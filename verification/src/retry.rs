//! Retry decisions and per-attempt correlation identifiers.
//!
//! A logical call is carried out as one or more physical attempts.  The
//! decision logic lives here: how a response is classified, when another
//! attempt is owed, and how each attempt gets a correlation identifier of
//! its own.  The caller performs the actual sending and the waiting and
//! feeds every outcome back in.

use vstd::prelude::*;

verus! {

/// How many retries (attempts past the first) a connection allows a
/// logical call by default: up to four physical attempts in all.
pub const DEFAULT_MAX_RETRIES: u32 = 3;

/// How one physical attempt of a logical call turned out.
#[derive(Clone, Copy, PartialEq, Eq, Structural, Debug)]
pub enum AttemptOutcome {
    /// The attempt succeeded; the logical call is done.
    Success,
    /// A failure likely to pass on a later attempt: a network error or a
    /// server-side (5xx) response.
    TransientFailure,
    /// A permanent rejection: a client-side (4xx) response, a response of
    /// an unexpected shape, or any other failure that retrying cannot mend.
    FatalFailure,
}

/// Classification of an HTTP status code: 2xx is success, 5xx is a
/// transient failure, everything else is a permanent rejection.
pub open spec fn spec_classify_status(status: u16) -> AttemptOutcome {
    if 200 <= status < 300 {
        AttemptOutcome::Success
    } else if 500 <= status < 600 {
        AttemptOutcome::TransientFailure
    } else {
        AttemptOutcome::FatalFailure
    }
}

/// Classify an HTTP status code for the retry policy.
pub fn classify_status(status: u16) -> (r: AttemptOutcome)
    ensures
        r == spec_classify_status(status),
{
    if 200 <= status && status < 300 {
        AttemptOutcome::Success
    } else if 500 <= status && status < 600 {
        AttemptOutcome::TransientFailure
    } else {
        AttemptOutcome::FatalFailure
    }
}

/// The number of physical attempts a logical call makes, given how many
/// retries are still allowed and the outcome each attempt would receive.
/// The first attempt is always made; a further attempt follows exactly when
/// the outcome was transient and a retry is still allowed.
pub open spec fn physical_attempts(retries_left: nat, outcomes: Seq<AttemptOutcome>) -> nat
    decreases outcomes.len(),
{
    if outcomes.len() == 0 {
        0
    } else if outcomes[0] is TransientFailure && retries_left > 0 {
        1 + physical_attempts((retries_left - 1) as nat, outcomes.drop_first())
    } else {
        1
    }
}

/// Law: a logical call that receives a transient failure on every attempt
/// makes exactly one more attempt than the configured retry count.
pub proof fn lemma_all_transient_makes_retries_plus_one(
    retries: nat,
    outcomes: Seq<AttemptOutcome>,
)
    requires
        outcomes.len() > retries,
        forall|i: int| 0 <= i < outcomes.len() ==> outcomes[i] is TransientFailure,
    ensures
        physical_attempts(retries, outcomes) == retries + 1,
    decreases retries,
{
    if retries > 0 {
        lemma_all_transient_makes_retries_plus_one((retries - 1) as nat, outcomes.drop_first());
    }
}

/// Law: a logical call whose first attempt receives a success or a
/// permanent rejection makes exactly one physical attempt, whatever the
/// retry budget.
pub proof fn lemma_non_transient_first_makes_one_attempt(
    retries: nat,
    outcomes: Seq<AttemptOutcome>,
)
    requires
        outcomes.len() >= 1,
        !(outcomes[0] is TransientFailure),
    ensures
        physical_attempts(retries, outcomes) == 1,
{
}

/// The running state of one logical call under the retry policy.
pub struct RetryState {
    /// How many retries (attempts past the first) the policy allows.
    pub max_retries: u32,
    /// How many retries have been spent so far.
    pub retries_used: u32,
}

impl RetryState {
    /// Start a logical call under a policy that allows `max_retries`
    /// attempts past the first one.
    pub fn new(max_retries: u32) -> (r: RetryState)
        ensures
            r.max_retries == max_retries,
            r.retries_used == 0,
    {
        RetryState { max_retries, retries_used: 0 }
    }

    /// Record the outcome of the attempt just made and decide whether one
    /// more attempt is owed: exactly when the outcome was transient and the
    /// retry budget is not yet spent.
    pub fn record_outcome(&mut self, outcome: AttemptOutcome) -> (retry_again: bool)
        ensures
            retry_again == (outcome is TransientFailure && old(self).retries_used < old(
                self,
            ).max_retries),
            final(self).max_retries == old(self).max_retries,
            retry_again ==> final(self).retries_used == old(self).retries_used + 1,
            !retry_again ==> final(self).retries_used == old(self).retries_used,
    {
        if matches!(outcome, AttemptOutcome::TransientFailure) && self.retries_used
            < self.max_retries {
            self.retries_used = self.retries_used + 1;
            true
        } else {
            false
        }
    }
}

/// A correlation identifier: stamped onto one physical attempt so that the
/// server can tell retried attempts of one logical call apart.  `run` is
/// shared by all attempts issued from one generator; `attempt` differs
/// between them.
#[derive(Clone, Copy, PartialEq, Eq, Structural, Debug)]
pub struct CorrelationId {
    pub run: u64,
    pub attempt: u64,
}

/// Hands out a fresh correlation identifier for every physical attempt.
pub struct CorrelationIdGenerator {
    /// A tag for this generator, shared by every identifier it issues;
    /// drawn from a high-entropy source by the caller so that identifiers
    /// from unrelated processes are unlikely to meet.
    pub run: u64,
    /// The attempt number the next identifier will carry.
    pub next_attempt: u64,
}

/// The identifier the `k`-th `fresh` call after state `g` returns.
pub open spec fn issued_id(g: CorrelationIdGenerator, k: nat) -> CorrelationId
    recommends
        g.next_attempt + k < u64::MAX,
{
    CorrelationId { run: g.run, attempt: (g.next_attempt + k) as u64 }
}

impl CorrelationIdGenerator {
    /// Start issuing identifiers under the given run tag.
    pub fn new(run_tag: u64) -> (r: CorrelationIdGenerator)
        ensures
            r.run == run_tag,
            r.next_attempt == 0,
    {
        CorrelationIdGenerator { run: run_tag, next_attempt: 0 }
    }

    /// Issue the identifier for the next physical attempt.
    pub fn fresh(&mut self) -> (r: CorrelationId)
        requires
            old(self).next_attempt < u64::MAX,
        ensures
            r == issued_id(*old(self), 0),
            final(self).run == old(self).run,
            final(self).next_attempt == old(self).next_attempt + 1,
    {
        let id = CorrelationId { run: self.run, attempt: self.next_attempt };
        self.next_attempt = self.next_attempt + 1;
        id
    }
}

/// The character for one hex digit value.
pub open spec fn hex_digit_char(n: u64) -> char {
    if n == 0 {
        '0'
    } else if n == 1 {
        '1'
    } else if n == 2 {
        '2'
    } else if n == 3 {
        '3'
    } else if n == 4 {
        '4'
    } else if n == 5 {
        '5'
    } else if n == 6 {
        '6'
    } else if n == 7 {
        '7'
    } else if n == 8 {
        '8'
    } else if n == 9 {
        '9'
    } else if n == 10 {
        'a'
    } else if n == 11 {
        'b'
    } else if n == 12 {
        'c'
    } else if n == 13 {
        'd'
    } else if n == 14 {
        'e'
    } else {
        'f'
    }
}

/// The hex digit of `v` at position `i`, most significant first.
pub open spec fn spec_nibble(v: u64, i: int) -> u64 {
    (v >> (((15 - i) * 4) as u64)) & 0xf
}

/// `v` written as sixteen hex digits, most significant first.
pub open spec fn spec_hex_u64(v: u64) -> Seq<char> {
    Seq::new(16, |i: int| hex_digit_char(spec_nibble(v, i)))
}

/// The one-character text of a hex digit value.
fn hex_digit_str(n: u64) -> (r: &'static str)
    requires
        n < 16,
    ensures
        r@.len() == 1,
        r@[0] == hex_digit_char(n),
{
    proof {
        reveal_strlit("0");
        reveal_strlit("1");
        reveal_strlit("2");
        reveal_strlit("3");
        reveal_strlit("4");
        reveal_strlit("5");
        reveal_strlit("6");
        reveal_strlit("7");
        reveal_strlit("8");
        reveal_strlit("9");
        reveal_strlit("a");
        reveal_strlit("b");
        reveal_strlit("c");
        reveal_strlit("d");
        reveal_strlit("e");
        reveal_strlit("f");
    }
    if n == 0 {
        "0"
    } else if n == 1 {
        "1"
    } else if n == 2 {
        "2"
    } else if n == 3 {
        "3"
    } else if n == 4 {
        "4"
    } else if n == 5 {
        "5"
    } else if n == 6 {
        "6"
    } else if n == 7 {
        "7"
    } else if n == 8 {
        "8"
    } else if n == 9 {
        "9"
    } else if n == 10 {
        "a"
    } else if n == 11 {
        "b"
    } else if n == 12 {
        "c"
    } else if n == 13 {
        "d"
    } else if n == 14 {
        "e"
    } else {
        "f"
    }
}

/// Write `v` as sixteen hex digits, most significant first.
fn hex_u64(v: u64) -> (r: String)
    ensures
        r@ == spec_hex_u64(v),
{
    let mut s = String::new();
    let mut i: usize = 0;
    while i < 16
        invariant
            i <= 16,
            s@ =~= spec_hex_u64(v).subrange(0, i as int),
        decreases 16 - i,
    {
        let shift: u64 = ((15 - i) as u64) * 4;
        let digit: u64 = (v >> shift) & 0xf;
        assert(digit < 16) by (bit_vector)
            requires
                digit == (v >> shift) & 0xf,
        ;
        assert(digit == spec_nibble(v, i as int));
        s.append(hex_digit_str(digit));
        proof {
            assert(s@ =~= spec_hex_u64(v).subrange(0, i + 1 as int));
        }
        i = i + 1;
    }
    proof {
        assert(s@ =~= spec_hex_u64(v));
    }
    s
}

/// Law: the sixteen-digit hex form determines the value: two values with
/// one rendering are equal.
pub proof fn lemma_hex_u64_injective(a: u64, b: u64)
    requires
        spec_hex_u64(a) == spec_hex_u64(b),
    ensures
        a == b,
{
    assert forall|i: int| 0 <= i < 16 implies spec_nibble(a, i) == spec_nibble(b, i) by {
        let s: u64 = ((15 - i) * 4) as u64;
        assert((a >> s) & 0xf < 16) by (bit_vector);
        assert((b >> s) & 0xf < 16) by (bit_vector);
        assert(spec_nibble(a, i) == (a >> s) & 0xf);
        assert(spec_nibble(b, i) == (b >> s) & 0xf);
        assert(spec_hex_u64(a)[i] == hex_digit_char(spec_nibble(a, i)));
        assert(spec_hex_u64(b)[i] == hex_digit_char(spec_nibble(b, i)));
        assert(spec_hex_u64(a)[i] == spec_hex_u64(b)[i]);
    }
    assert(spec_nibble(a, 0) == spec_nibble(b, 0));
    assert(spec_nibble(a, 1) == spec_nibble(b, 1));
    assert(spec_nibble(a, 2) == spec_nibble(b, 2));
    assert(spec_nibble(a, 3) == spec_nibble(b, 3));
    assert(spec_nibble(a, 4) == spec_nibble(b, 4));
    assert(spec_nibble(a, 5) == spec_nibble(b, 5));
    assert(spec_nibble(a, 6) == spec_nibble(b, 6));
    assert(spec_nibble(a, 7) == spec_nibble(b, 7));
    assert(spec_nibble(a, 8) == spec_nibble(b, 8));
    assert(spec_nibble(a, 9) == spec_nibble(b, 9));
    assert(spec_nibble(a, 10) == spec_nibble(b, 10));
    assert(spec_nibble(a, 11) == spec_nibble(b, 11));
    assert(spec_nibble(a, 12) == spec_nibble(b, 12));
    assert(spec_nibble(a, 13) == spec_nibble(b, 13));
    assert(spec_nibble(a, 14) == spec_nibble(b, 14));
    assert(spec_nibble(a, 15) == spec_nibble(b, 15));
    assert(a == b) by (bit_vector)
        requires
            (a >> 60u64) & 0xf == (b >> 60u64) & 0xf,
            (a >> 56u64) & 0xf == (b >> 56u64) & 0xf,
            (a >> 52u64) & 0xf == (b >> 52u64) & 0xf,
            (a >> 48u64) & 0xf == (b >> 48u64) & 0xf,
            (a >> 44u64) & 0xf == (b >> 44u64) & 0xf,
            (a >> 40u64) & 0xf == (b >> 40u64) & 0xf,
            (a >> 36u64) & 0xf == (b >> 36u64) & 0xf,
            (a >> 32u64) & 0xf == (b >> 32u64) & 0xf,
            (a >> 28u64) & 0xf == (b >> 28u64) & 0xf,
            (a >> 24u64) & 0xf == (b >> 24u64) & 0xf,
            (a >> 20u64) & 0xf == (b >> 20u64) & 0xf,
            (a >> 16u64) & 0xf == (b >> 16u64) & 0xf,
            (a >> 12u64) & 0xf == (b >> 12u64) & 0xf,
            (a >> 8u64) & 0xf == (b >> 8u64) & 0xf,
            (a >> 4u64) & 0xf == (b >> 4u64) & 0xf,
            (a >> 0u64) & 0xf == (b >> 0u64) & 0xf,
    ;
}

/// The wire text of a correlation identifier: the run tag and the attempt
/// number as sixteen hex digits each, joined by a dash.
pub open spec fn spec_id_text(id: CorrelationId) -> Seq<char> {
    spec_hex_u64(id.run) + "-"@ + spec_hex_u64(id.attempt)
}

impl CorrelationId {
    /// Write the identifier in its wire form.
    pub fn render(&self) -> (r: String)
        ensures
            r@ == spec_id_text(*self),
    {
        let mut s = hex_u64(self.run);
        s.append("-");
        let attempt = hex_u64(self.attempt);
        s.append(attempt.as_str());
        s
    }
}

/// Law: the wire text determines the identifier: two identifiers with one
/// rendering are equal, so distinct attempts stay distinguishable on the
/// wire.
pub proof fn lemma_id_text_injective(x: CorrelationId, y: CorrelationId)
    requires
        spec_id_text(x) == spec_id_text(y),
    ensures
        x == y,
{
    reveal_strlit("-");
    assert(spec_hex_u64(x.run) =~= spec_id_text(x).subrange(0, 16));
    assert(spec_hex_u64(y.run) =~= spec_id_text(y).subrange(0, 16));
    assert(spec_hex_u64(x.attempt) =~= spec_id_text(x).subrange(17, 33));
    assert(spec_hex_u64(y.attempt) =~= spec_id_text(y).subrange(17, 33));
    lemma_hex_u64_injective(x.run, y.run);
    lemma_hex_u64_injective(x.attempt, y.attempt);
}

/// Law: identifiers issued at two different points of one generator's run
/// are never equal, so every physical attempt of a logical call carries a
/// correlation identifier of its own.
pub proof fn lemma_issued_ids_distinct(g: CorrelationIdGenerator, k1: nat, k2: nat)
    requires
        k1 != k2,
        g.next_attempt + k1 < u64::MAX,
        g.next_attempt + k2 < u64::MAX,
    ensures
        issued_id(g, k1) != issued_id(g, k2),
{
}

} // verus!
