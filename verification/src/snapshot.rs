//! Per-iteration snapshots of every learner's Q-values, and their JSON
//! form.
//!
//! The JSON document has the shape
//! `{"iterations":[{"iteration":1,"values":[{"learner_id":...,
//! "values":{"VeryEasy":...},"difficulty_level":...},...]},...]}`, with
//! every Q-value written as a fixed six-decimal number. The renderer is
//! specified byte for byte, and decoding a rendered value is proved to
//! give the value back.

use vstd::arithmetic::div_mod::{
    lemma_div_is_ordered, lemma_div_pos_is_pos, lemma_fundamental_div_mod,
    lemma_mod_bound,
};
use vstd::prelude::*;
use vstd::utf8::encode_utf8;

use crate::content::DifficultyLevel;

verus! {

/// One learner's row in an iteration snapshot: the learner, the
/// difficulty they just attempted, and the eight per-level Q-values in
/// micro-units, indexed by difficulty.
#[derive(Debug)]
pub struct LearnerSnapshot {
    pub learner_id: String,
    pub difficulty_level: DifficultyLevel,
    pub values: Vec<i64>,
}

impl LearnerSnapshot {
    /// Eight values, one per difficulty level, each within `[-2.0, 1.0]`.
    pub open spec fn wf(self) -> bool {
        &&& self.values@.len() == 8
        &&& forall|k: int|
            0 <= k < 8 ==> -2000000 <= #[trigger] self.values@[k] <= 1000000
    }
}

/// The rows of all learners after one iteration, numbered from one.
#[derive(Debug)]
pub struct IterationSnapshot {
    pub iteration: u32,
    pub values: Vec<LearnerSnapshot>,
}

impl IterationSnapshot {
    pub open spec fn wf(self) -> bool {
        forall|l: int| 0 <= l < self.values@.len() ==> (#[trigger] self.values@[l]).wf()
    }
}

/// Everything one simulation run records.
#[derive(Debug)]
pub struct SimulationResults {
    pub iterations: Vec<IterationSnapshot>,
}

impl SimulationResults {
    pub open spec fn wf(self) -> bool {
        forall|i: int| 0 <= i < self.iterations@.len() ==> (#[trigger] self.iterations@[i]).wf()
    }
}

/// The decimal digits of a non-negative number, most significant first.
pub open spec fn digits_spec(n: int) -> Seq<u8>
    decreases n,
{
    if n < 10 {
        seq![(48 + n) as u8]
    } else {
        digits_spec(n / 10).push((48 + n % 10) as u8)
    }
}

/// Exactly `k` decimal digits of `f`, zero-padded at the front.
pub open spec fn digits_fixed_spec(f: int, k: nat) -> Seq<u8>
    decreases k,
{
    if k == 0 {
        Seq::empty()
    } else {
        digits_fixed_spec(f / 10, (k - 1) as nat).push((48 + f % 10) as u8)
    }
}

/// The number a digit string stands for.
pub open spec fn digits_val_spec(b: Seq<u8>) -> int
    decreases b.len(),
{
    if b.len() == 0 {
        0
    } else {
        digits_val_spec(b.drop_last()) * 10 + (b.last() - 48)
    }
}

/// Ten to the `k`.
pub open spec fn pow10(k: nat) -> int
    decreases k,
{
    if k == 0 {
        1
    } else {
        10 * pow10((k - 1) as nat)
    }
}

/// Reading the digits of `n` gives `n` back, and every digit byte is an
/// ASCII digit.
pub proof fn lemma_digits_roundtrip(n: int)
    requires
        n >= 0,
    ensures
        digits_val_spec(digits_spec(n)) == n,
        digits_spec(n).len() >= 1,
        forall|i: int|
            0 <= i < digits_spec(n).len() ==> 48 <= #[trigger] digits_spec(n)[i] <= 57,
    decreases n,
{
    lemma_fundamental_div_mod(n, 10);
    lemma_mod_bound(n, 10);
    if n < 10 {
        let d = digits_spec(n);
        assert(d == seq![(48 + n) as u8]);
        assert(d.drop_last() =~= Seq::<u8>::empty());
        assert(digits_val_spec(d.drop_last()) == 0);
        assert(d.last() == (48 + n) as u8);
        assert(digits_val_spec(d) == n);
    } else {
        lemma_div_pos_is_pos(n, 10);
        lemma_digits_roundtrip(n / 10);
        let d = digits_spec(n);
        assert(d.drop_last() == digits_spec(n / 10));
    }
}

/// Reading `k` fixed digits of `f < 10^k` gives `f` back, and every digit
/// byte is an ASCII digit.
pub proof fn lemma_digits_fixed_roundtrip(f: int, k: nat)
    requires
        0 <= f < pow10(k),
    ensures
        digits_val_spec(digits_fixed_spec(f, k)) == f,
        digits_fixed_spec(f, k).len() == k,
        forall|i: int|
            0 <= i < k ==> 48 <= #[trigger] digits_fixed_spec(f, k)[i] <= 57,
    decreases k,
{
    if k > 0 {
        lemma_fundamental_div_mod(f, 10);
        lemma_mod_bound(f, 10);
        lemma_div_pos_is_pos(f, 10);
        assert(f / 10 < pow10((k - 1) as nat)) by {
            lemma_div_is_ordered(f, pow10(k) - 1, 10);
            assert(pow10(k) == 10 * pow10((k - 1) as nat));
            lemma_fundamental_div_mod(pow10(k) - 1, 10);
            lemma_mod_bound(pow10(k) - 1, 10);
        }
        lemma_digits_fixed_roundtrip(f / 10, (k - 1) as nat);
        let d = digits_fixed_spec(f, k);
        assert(d.drop_last() == digits_fixed_spec(f / 10, (k - 1) as nat));
    }
}

/// A Q-value in micro-units written as a decimal number: an optional
/// minus sign, the whole part, a dot, and exactly six fractional digits.
pub open spec fn render_value_spec(v: int) -> Seq<u8> {
    let a = if v < 0 {
        -v
    } else {
        v
    };
    let body = digits_spec(a / 1000000) + seq![46u8] + digits_fixed_spec(a % 1000000, 6);
    if v < 0 {
        seq![45u8] + body
    } else {
        body
    }
}

/// What a rendered decimal stands for: the whole part times a million
/// plus the six fractional digits, negated after a minus sign.
pub open spec fn decode_value_spec(b: Seq<u8>) -> int {
    if b.len() > 0 && b[0] == 45 {
        -decode_magnitude_spec(b.subrange(1, b.len() as int))
    } else {
        decode_magnitude_spec(b)
    }
}

/// The magnitude of a rendered decimal without its sign.
pub open spec fn decode_magnitude_spec(b: Seq<u8>) -> int {
    digits_val_spec(b.subrange(0, b.len() - 7)) * 1000000 + digits_val_spec(
        b.subrange(b.len() - 6, b.len() as int),
    )
}

/// Decoding a rendered Q-value gives the value back: the numeric JSON
/// payload of a snapshot survives the round trip exactly.
pub proof fn lemma_value_codec_roundtrip(v: int)
    requires
        -1000000000000 <= v <= 1000000000000,
    ensures
        decode_value_spec(render_value_spec(v)) == v,
{
    let a = if v < 0 {
        -v
    } else {
        v
    };
    lemma_fundamental_div_mod(a, 1000000);
    lemma_mod_bound(a, 1000000);
    lemma_div_pos_is_pos(a, 1000000);
    lemma_digits_roundtrip(a / 1000000);
    assert(pow10(0) == 1);
    assert(pow10(1) == 10);
    assert(pow10(2) == 100);
    assert(pow10(3) == 1000);
    assert(pow10(4) == 10000);
    assert(pow10(5) == 100000);
    assert(pow10(6) == 1000000);
    lemma_digits_fixed_roundtrip(a % 1000000, 6);
    let whole = digits_spec(a / 1000000);
    let frac = digits_fixed_spec(a % 1000000, 6);
    let body = whole + seq![46u8] + frac;
    assert(body.len() == whole.len() + 7);
    assert(body.subrange(0, body.len() - 7) =~= whole);
    assert(body.subrange(body.len() - 6, body.len() as int) =~= frac);
    assert(decode_magnitude_spec(body) == a);
    if v < 0 {
        let full = seq![45u8] + body;
        assert(full[0] == 45);
        assert(full.subrange(1, full.len() as int) =~= body);
    } else {
        assert(body[0] == whole[0]);
        assert(48 <= whole[0] <= 57);
    }
}

/// Append the bytes of a string to the output.
fn push_str_bytes(out: &mut Vec<u8>, s: &str)
    ensures
        final(out)@ == old(out)@ + encode_utf8(s@),
{
    let b = s.as_bytes();
    let mut i: usize = 0;
    while i < b.len()
        invariant
            b@ == encode_utf8(s@),
            i <= b@.len(),
            out@ == old(out)@ + b@.subrange(0, i as int),
        decreases b@.len() - i,
    {
        out.push(b[i]);
        proof {
            assert(old(out)@ + b@.subrange(0, i as int) + seq![b@[i as int]] =~= old(out)@
                + b@.subrange(0, i + 1));
        }
        i += 1;
    }
    proof {
        assert(b@.subrange(0, b@.len() as int) =~= b@);
    }
}

/// Append the decimal digits of a non-negative number.
fn push_digits(out: &mut Vec<u8>, n: u64)
    ensures
        final(out)@ == old(out)@ + digits_spec(n as int),
    decreases n,
{
    if n < 10 {
        out.push(48 + n as u8);
        proof {
            assert(old(out)@.push((48 + n as int) as u8) =~= old(out)@ + digits_spec(n as int));
        }
    } else {
        push_digits(out, n / 10);
        out.push(48 + (n % 10) as u8);
        proof {
            assert(old(out)@ + digits_spec(n as int / 10) + seq![(48 + n as int % 10) as u8]
                =~= old(out)@ + digits_spec(n as int));
        }
    }
}

/// Append exactly `k` decimal digits of `f`, zero-padded.
fn push_digits_fixed(out: &mut Vec<u8>, f: u64, k: usize)
    ensures
        final(out)@ == old(out)@ + digits_fixed_spec(f as int, k as nat),
    decreases k,
{
    if k == 0 {
        proof {
            assert(old(out)@ + digits_fixed_spec(f as int, 0) =~= old(out)@);
        }
    } else {
        push_digits_fixed(out, f / 10, k - 1);
        out.push(48 + (f % 10) as u8);
        proof {
            assert(old(out)@ + digits_fixed_spec(f as int / 10, (k - 1) as nat) + seq![(48 + f as int
                % 10) as u8] =~= old(out)@ + digits_fixed_spec(f as int, k as nat));
        }
    }
}

/// The key that precedes the `k`-th Q-value in the values object,
/// including the separating comma for all but the first.
pub open spec fn level_key_spec(k: int) -> Seq<char> {
    if k == 0 {
        "\"VeryEasy\":"@
    } else if k == 1 {
        ",\"Easy\":"@
    } else if k == 2 {
        ",\"Medium\":"@
    } else if k == 3 {
        ",\"Hard\":"@
    } else if k == 4 {
        ",\"VeryHard\":"@
    } else if k == 5 {
        ",\"Expert\":"@
    } else if k == 6 {
        ",\"Master\":"@
    } else {
        ",\"Grandmaster\":"@
    }
}

fn level_key(k: usize) -> (r: &'static str)
    requires
        k < 8,
    ensures
        r@ == level_key_spec(k as int),
{
    if k == 0 {
        "\"VeryEasy\":"
    } else if k == 1 {
        ",\"Easy\":"
    } else if k == 2 {
        ",\"Medium\":"
    } else if k == 3 {
        ",\"Hard\":"
    } else if k == 4 {
        ",\"VeryHard\":"
    } else if k == 5 {
        ",\"Expert\":"
    } else if k == 6 {
        ",\"Master\":"
    } else {
        ",\"Grandmaster\":"
    }
}

/// The first `k` entries of the values object.
pub open spec fn render_entries_spec(v: Seq<i64>, k: int) -> Seq<u8>
    decreases k,
{
    if k <= 0 {
        Seq::empty()
    } else {
        render_entries_spec(v, k - 1) + encode_utf8(level_key_spec(k - 1)) + render_value_spec(
            v[k - 1] as int,
        )
    }
}

/// The eight Q-values as a JSON object keyed by the difficulty tokens.
pub open spec fn render_row_values_spec(v: Seq<i64>) -> Seq<u8> {
    encode_utf8("{"@) + render_entries_spec(v, 8) + encode_utf8("}"@)
}

/// One snapshot row as JSON: the learner, the eight Q-values keyed by
/// their difficulty tokens, and the difficulty the learner attempted.
pub open spec fn render_row_spec(row: LearnerSnapshot) -> Seq<u8> {
    encode_utf8("{\"learner_id\":\""@) + encode_utf8(row.learner_id@) + encode_utf8(
        "\",\"values\":"@,
    ) + render_row_values_spec(row.values@) + encode_utf8(",\"difficulty_level\":\""@)
        + encode_utf8(row.difficulty_level.token_spec()) + encode_utf8("\"}"@)
}

/// The first `n` rows as JSON, comma-separated.
pub open spec fn render_rows_spec(rows: Seq<LearnerSnapshot>, n: int) -> Seq<u8>
    decreases n,
{
    if n <= 0 {
        Seq::empty()
    } else if n == 1 {
        render_row_spec(rows[0])
    } else {
        render_rows_spec(rows, n - 1) + seq![44u8] + render_row_spec(rows[n - 1])
    }
}

/// One iteration as JSON: its one-based number and its rows.
pub open spec fn render_iteration_spec(itn: IterationSnapshot) -> Seq<u8> {
    encode_utf8("{\"iteration\":"@) + digits_spec(itn.iteration as int) + encode_utf8(
        ",\"values\":["@,
    ) + render_rows_spec(itn.values@, itn.values@.len() as int) + encode_utf8("]}"@)
}

/// The first `n` iterations as JSON, comma-separated.
pub open spec fn render_iterations_spec(its: Seq<IterationSnapshot>, n: int) -> Seq<u8>
    decreases n,
{
    if n <= 0 {
        Seq::empty()
    } else if n == 1 {
        render_iteration_spec(its[0])
    } else {
        render_iterations_spec(its, n - 1) + seq![44u8] + render_iteration_spec(its[n - 1])
    }
}

/// A whole run's snapshots as JSON.
pub open spec fn render_results_spec(s: SimulationResults) -> Seq<u8> {
    encode_utf8("{\"iterations\":["@) + render_iterations_spec(
        s.iterations@,
        s.iterations@.len() as int,
    ) + encode_utf8("]}"@)
}

/// Append a Q-value as a fixed six-decimal number.
fn push_value(out: &mut Vec<u8>, v: i64)
    requires
        -1000000000000 <= v <= 1000000000000,
    ensures
        final(out)@ == old(out)@ + render_value_spec(v as int),
{
    let a: i64 = if v < 0 {
        out.push(45);
        -v
    } else {
        v
    };
    push_digits(out, (a / 1000000) as u64);
    out.push(46);
    push_digits_fixed(out, (a % 1000000) as u64, 6);
    proof {
        assert(final(out)@ =~= old(out)@ + render_value_spec(v as int));
    }
}

/// Append the eight Q-values as a JSON object.
#[verifier::rlimit(100)]
fn push_row_values(out: &mut Vec<u8>, values: &Vec<i64>)
    requires
        values@.len() == 8,
        forall|k: int| 0 <= k < 8 ==> -2000000 <= #[trigger] values@[k] <= 1000000,
    ensures
        final(out)@ == old(out)@ + render_row_values_spec(values@),
{
    push_str_bytes(out, "{");
    let ghost prefix = out@;
    let mut k: usize = 0;
    while k < 8
        invariant
            values@.len() == 8,
            forall|j: int| 0 <= j < 8 ==> -2000000 <= #[trigger] values@[j] <= 1000000,
            k <= 8,
            out@ == prefix + render_entries_spec(values@, k as int),
        decreases 8 - k,
    {
        push_str_bytes(out, level_key(k));
        push_value(out, values[k]);
        proof {
            assert(out@ =~= prefix + render_entries_spec(values@, k + 1));
        }
        k += 1;
    }
    push_str_bytes(out, "}");
    proof {
        assert(final(out)@ =~= old(out)@ + render_row_values_spec(values@));
    }
}

/// Append one snapshot row as JSON.
#[verifier::rlimit(100)]
fn push_row(out: &mut Vec<u8>, row: &LearnerSnapshot)
    requires
        row.wf(),
    ensures
        final(out)@ == old(out)@ + render_row_spec(*row),
{
    push_str_bytes(out, "{\"learner_id\":\"");
    push_str_bytes(out, row.learner_id.as_str());
    push_str_bytes(out, "\",\"values\":");
    push_row_values(out, &row.values);
    push_str_bytes(out, ",\"difficulty_level\":\"");
    push_str_bytes(out, row.difficulty_level.as_str());
    push_str_bytes(out, "\"}");
    proof {
        assert(final(out)@ =~= old(out)@ + render_row_spec(*row));
    }
}

/// Append one iteration as JSON.
#[verifier::rlimit(100)]
fn push_iteration(out: &mut Vec<u8>, itn: &IterationSnapshot)
    requires
        itn.wf(),
    ensures
        final(out)@ == old(out)@ + render_iteration_spec(*itn),
{
    push_str_bytes(out, "{\"iteration\":");
    push_digits(out, itn.iteration as u64);
    push_str_bytes(out, ",\"values\":[");
    let ghost row_prefix = out@;
    let m = itn.values.len();
    let mut l: usize = 0;
    while l < m
        invariant
            itn.wf(),
            m == itn.values@.len(),
            l <= m,
            out@ == row_prefix + render_rows_spec(itn.values@, l as int),
        decreases m - l,
    {
        if l > 0 {
            out.push(44);
        }
        push_row(out, &itn.values[l]);
        proof {
            if l == 0 {
                assert(out@ =~= row_prefix + render_rows_spec(itn.values@, 1));
            } else {
                assert(out@ =~= row_prefix + render_rows_spec(itn.values@, l + 1));
            }
        }
        l += 1;
    }
    push_str_bytes(out, "]}");
    proof {
        assert(final(out)@ =~= old(out)@ + render_iteration_spec(*itn));
    }
}

impl SimulationResults {
    /// The whole run as a JSON document, specified byte for byte.
    #[verifier::rlimit(100)]
    pub fn to_json_bytes(&self) -> (r: Vec<u8>)
        requires
            self.wf(),
        ensures
            r@ == render_results_spec(*self),
    {
        let mut out: Vec<u8> = Vec::new();
        push_str_bytes(&mut out, "{\"iterations\":[");
        let ghost prefix = out@;
        let n = self.iterations.len();
        let mut i: usize = 0;
        while i < n
            invariant
                self.wf(),
                n == self.iterations@.len(),
                i <= n,
                out@ == prefix + render_iterations_spec(self.iterations@, i as int),
            decreases n - i,
        {
            if i > 0 {
                out.push(44);
            }
            push_iteration(&mut out, &self.iterations[i]);
            proof {
                if i == 0 {
                    assert(out@ =~= prefix + render_iterations_spec(self.iterations@, 1));
                } else {
                    assert(out@ =~= prefix + render_iterations_spec(self.iterations@, i + 1));
                }
            }
            i += 1;
        }
        push_str_bytes(&mut out, "]}");
        proof {
            assert(out@ =~= render_results_spec(*self));
        }
        out
    }
}

} // verus!
