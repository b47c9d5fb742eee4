//! Exact integer frequency expansion of a chord trigger.
//!
//! A root pitch arrives in centihertz (1/100 Hz). The octave shift doubles
//! it `octave` times, and each chord ratio multiplies the base by `k / 40`
//! fortieths, so voice frequencies are produced in fortieths of a
//! centihertz, that is in units of 1/4000 Hz. Every step is exact integer
//! arithmetic: 1/4000 Hz divides every ratio of every quality.

use vstd::prelude::*;
use crate::quality::ChordQuality;
use crate::quality::RATIO_SLOTS;
use crate::quality::lemma_voice_count_is_active_slots;
use crate::quality::spec_ratio_fortieths;
use crate::quality::spec_voice_count;

verus! {

/// Largest accepted root pitch, in centihertz (1000 Hz).
pub const MAX_ROOT_CENTIHZ: u64 = 100_000;

/// Smallest accepted octave shift.
pub const MIN_OCTAVE: u64 = 1;

/// Largest accepted octave shift.
pub const MAX_OCTAVE: u64 = 9;

/// 2 raised to `e`.
pub open spec fn pow2(e: nat) -> nat
    decreases e,
{
    if e == 0 {
        1
    } else {
        2 * pow2((e - 1) as nat)
    }
}

/// Powers of two are at least 1.
pub proof fn lemma_pow2_pos(e: nat)
    ensures
        pow2(e) >= 1,
    decreases e,
{
    if e > 0 {
        lemma_pow2_pos((e - 1) as nat);
    }
}

/// Powers of two grow strictly with the exponent.
pub proof fn lemma_pow2_strictly_increases(e1: nat, e2: nat)
    requires
        e1 < e2,
    ensures
        pow2(e1) < pow2(e2),
    decreases e2,
{
    lemma_pow2_pos(e1);
    if e1 < e2 - 1 {
        lemma_pow2_strictly_increases(e1, (e2 - 1) as nat);
    }
    lemma_pow2_pos((e2 - 1) as nat);
}

/// In the accepted octave range a power of two is at most 512.
pub proof fn lemma_pow2_octave_bound(e: nat)
    requires
        e <= 9,
    ensures
        pow2(e) <= 512,
{
    reveal_with_fuel(pow2, 10);
    if e < 9 {
        lemma_pow2_strictly_increases(e, 9);
    }
}

/// For a fixed positive root pitch, the base frequency `root * 2^octave`
/// grows strictly with the octave.
pub proof fn lemma_base_monotonic_in_octave(root_centihz: u64, o1: nat, o2: nat)
    requires
        root_centihz >= 1,
        o1 < o2,
    ensures
        root_centihz * pow2(o1) < root_centihz * pow2(o2),
{
    lemma_pow2_strictly_increases(o1, o2);
    let p1 = pow2(o1);
    let p2 = pow2(o2);
    assert(root_centihz * p1 < root_centihz * p2) by (nonlinear_arith)
        requires
            root_centihz >= 1,
            p1 < p2,
    ;
}

/// The base frequency of a trigger: the root pitch doubled once per octave
/// step, still in centihertz.
pub fn base_frequency(root_centihz: u64, octave: u64) -> (b: u64)
    requires
        1 <= root_centihz <= MAX_ROOT_CENTIHZ,
        MIN_OCTAVE <= octave <= MAX_OCTAVE,
    ensures
        b == root_centihz * pow2(octave as nat),
        1 <= b <= 51_200_000,
{
    let mut b: u64 = root_centihz;
    let mut k: u64 = 0;
    proof {
        assert(pow2(0) == 1);
    }
    while k < octave
        invariant
            k <= octave <= MAX_OCTAVE,
            1 <= root_centihz <= MAX_ROOT_CENTIHZ,
            b == root_centihz * pow2(k as nat),
            b <= MAX_ROOT_CENTIHZ * pow2(k as nat),
        decreases octave - k,
    {
        proof {
            assert(pow2((k + 1) as nat) == 2 * pow2(k as nat));
            assert(root_centihz * (2 * pow2(k as nat)) == 2 * (root_centihz * pow2(k as nat)))
                by (nonlinear_arith);
            assert(MAX_ROOT_CENTIHZ * (2 * pow2(k as nat)) == 2 * (MAX_ROOT_CENTIHZ * pow2(
                k as nat,
            ))) by (nonlinear_arith);
            lemma_pow2_octave_bound((k + 1) as nat);
            assert(root_centihz * pow2((k + 1) as nat) <= MAX_ROOT_CENTIHZ * pow2(
                (k + 1) as nat,
            )) by (nonlinear_arith)
                requires
                    root_centihz <= MAX_ROOT_CENTIHZ,
                    pow2((k + 1) as nat) >= 0,
            ;
            assert(MAX_ROOT_CENTIHZ * pow2((k + 1) as nat) <= MAX_ROOT_CENTIHZ * 512)
                by (nonlinear_arith)
                requires
                    pow2((k + 1) as nat) <= 512,
            ;
        }
        b = b * 2;
        k = k + 1;
    }
    proof {
        lemma_pow2_pos(octave as nat);
        assert(root_centihz * pow2(octave as nat) >= 1) by (nonlinear_arith)
            requires
                root_centihz >= 1,
                pow2(octave as nat) >= 1,
        ;
        lemma_pow2_octave_bound(octave as nat);
        assert(root_centihz * pow2(octave as nat) <= MAX_ROOT_CENTIHZ * 512) by (nonlinear_arith)
            requires
                root_centihz <= MAX_ROOT_CENTIHZ,
                pow2(octave as nat) <= 512,
        ;
    }
    b
}

/// The frequency of voice `j` of a chord, in fortieths of a centihertz
/// (1/4000 Hz): the base frequency times the ratio of slot `j`.
pub open spec fn spec_voice_frequency(
    root_centihz: u64,
    octave: u64,
    q: ChordQuality,
    j: int,
) -> int {
    root_centihz * pow2(octave as nat) * spec_ratio_fortieths(q, j)
}

/// The frequencies of the active voices of a chord, in fortieths of a
/// centihertz (1/4000 Hz): one entry per active voice, in slot order,
/// every one positive and exact.
pub fn voice_frequencies(root_centihz: u64, octave: u64, q: ChordQuality) -> (v: Vec<u64>)
    requires
        1 <= root_centihz <= MAX_ROOT_CENTIHZ,
        MIN_OCTAVE <= octave <= MAX_OCTAVE,
    ensures
        v@.len() == spec_voice_count(q),
        forall|j: int|
            0 <= j < v@.len() ==> v@[j] == spec_voice_frequency(root_centihz, octave, q, j),
        forall|j: int| 0 <= j < v@.len() ==> 1 <= #[trigger] v@[j] <= 3_840_000_000,
{
    let base = base_frequency(root_centihz, octave);
    let n = q.voice_count();
    proof {
        lemma_voice_count_is_active_slots(q);
    }
    let mut v: Vec<u64> = Vec::new();
    let mut j: usize = 0;
    while j < n
        invariant
            j <= n,
            n == spec_voice_count(q),
            n <= RATIO_SLOTS,
            1 <= base <= 51_200_000,
            base == root_centihz * pow2(octave as nat),
            v@.len() == j,
            forall|k: int| 0 <= k < n ==> 1 <= #[trigger] spec_ratio_fortieths(q, k) <= 75,
            forall|k: int|
                0 <= k < j ==> v@[k] == spec_voice_frequency(root_centihz, octave, q, k),
            forall|k: int| 0 <= k < j ==> 1 <= #[trigger] v@[k] <= 3_840_000_000,
        decreases n - j,
    {
        let r = q.ratio_fortieths(j);
        proof {
            assert(1 <= base * r <= 3_840_000_000) by (nonlinear_arith)
                requires
                    1 <= base <= 51_200_000,
                    1 <= r <= 75,
            ;
        }
        v.push(base * r);
        j = j + 1;
    }
    v
}

} // verus!
