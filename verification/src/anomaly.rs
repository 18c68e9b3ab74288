//! Anomaly detection over a region: how many anomalies are reported, of
//! which kinds, and the raw draws that place them.

use vstd::prelude::*;
use crate::hash::{bits_hash, simple_hash_f64_bits};
use crate::rng::{lcg_next, lcg_step, low16, noise_bits, LCG_INCREMENT};

verus! {

/// Fewest anomalies a detection reports.
pub const MIN_ANOMALIES: usize = 3;

/// Most anomalies a detection reports.
pub const MAX_ANOMALIES: usize = 20;

/// Number of anomaly kinds.
pub const ANOMALY_KIND_COUNT: u64 = 5;

/// The kinds of climate anomaly the engine reports.
#[derive(Clone, Copy, Debug, PartialEq, Eq, Structural)]
pub enum AnomalyKind {
    HeatWave,
    ColdSnap,
    PressureAnomaly,
    HumiditySpike,
    WindShear,
}

/// The kind at position `i` of the kind list.
pub open spec fn anomaly_kind_at(i: int) -> AnomalyKind {
    if i == 0 {
        AnomalyKind::HeatWave
    } else if i == 1 {
        AnomalyKind::ColdSnap
    } else if i == 2 {
        AnomalyKind::PressureAnomaly
    } else if i == 3 {
        AnomalyKind::HumiditySpike
    } else {
        AnomalyKind::WindShear
    }
}

/// The identifier under which a kind is reported.
pub open spec fn anomaly_kind_name(k: AnomalyKind) -> Seq<char> {
    match k {
        AnomalyKind::HeatWave => "heat_wave"@,
        AnomalyKind::ColdSnap => "cold_snap"@,
        AnomalyKind::PressureAnomaly => "pressure_anomaly"@,
        AnomalyKind::HumiditySpike => "humidity_spike"@,
        AnomalyKind::WindShear => "wind_shear"@,
    }
}

/// `s` with every underscore replaced by a space.
pub open spec fn underscores_to_spaces(s: Seq<char>) -> Seq<char> {
    s.map_values(|c: char| if c == '_' { ' ' } else { c })
}

/// The kind list in reporting order: heat_wave, cold_snap,
/// pressure_anomaly, humidity_spike, wind_shear.
pub open spec fn documented_kind_names() -> Seq<Seq<char>> {
    seq!["heat_wave"@, "cold_snap"@, "pressure_anomaly"@, "humidity_spike"@, "wind_shear"@]
}

/// Kind indices 0 to 4 name the five kinds one-to-one, in the order of the
/// documented list: distinct indices give distinct kinds, every kind has
/// an index, and index `i` carries the `i`-th documented name.
pub proof fn lemma_anomaly_kinds_one_to_one(i: int, j: int, k: AnomalyKind)
    requires
        0 <= i < 5,
        0 <= j < 5,
    ensures
        i != j ==> anomaly_kind_at(i) != anomaly_kind_at(j),
        exists|n: int| 0 <= n < 5 && anomaly_kind_at(n) == k,
        anomaly_kind_name(anomaly_kind_at(i)) == documented_kind_names()[i],
{
    match k {
        AnomalyKind::HeatWave => assert(anomaly_kind_at(0) == k),
        AnomalyKind::ColdSnap => assert(anomaly_kind_at(1) == k),
        AnomalyKind::PressureAnomaly => assert(anomaly_kind_at(2) == k),
        AnomalyKind::HumiditySpike => assert(anomaly_kind_at(3) == k),
        AnomalyKind::WindShear => assert(anomaly_kind_at(4) == k),
    }
}

impl AnomalyKind {
    /// The kind at position `index` of the kind list.
    pub fn from_index(index: u64) -> (k: AnomalyKind)
        requires
            index < ANOMALY_KIND_COUNT,
        ensures
            k == anomaly_kind_at(index as int),
    {
        if index == 0 {
            AnomalyKind::HeatWave
        } else if index == 1 {
            AnomalyKind::ColdSnap
        } else if index == 2 {
            AnomalyKind::PressureAnomaly
        } else if index == 3 {
            AnomalyKind::HumiditySpike
        } else {
            AnomalyKind::WindShear
        }
    }

    /// The identifier under which the kind is reported, such as `heat_wave`.
    pub fn name(self) -> (name: &'static str)
        ensures
            name@ == anomaly_kind_name(self),
    {
        match self {
            AnomalyKind::HeatWave => "heat_wave",
            AnomalyKind::ColdSnap => "cold_snap",
            AnomalyKind::PressureAnomaly => "pressure_anomaly",
            AnomalyKind::HumiditySpike => "humidity_spike",
            AnomalyKind::WindShear => "wind_shear",
        }
    }

    /// The kind as it reads in a description: its identifier with spaces
    /// for underscores, such as `heat wave`.
    pub fn label(self) -> (label: &'static str)
        ensures
            label@ == underscores_to_spaces(anomaly_kind_name(self)),
    {
        match self {
            AnomalyKind::HeatWave => {
                proof {
                    reveal_strlit("heat_wave");
                    reveal_strlit("heat wave");
                    assert("heat wave"@ =~= underscores_to_spaces("heat_wave"@));
                }
                "heat wave"
            },
            AnomalyKind::ColdSnap => {
                proof {
                    reveal_strlit("cold_snap");
                    reveal_strlit("cold snap");
                    assert("cold snap"@ =~= underscores_to_spaces("cold_snap"@));
                }
                "cold snap"
            },
            AnomalyKind::PressureAnomaly => {
                proof {
                    reveal_strlit("pressure_anomaly");
                    reveal_strlit("pressure anomaly");
                    assert("pressure anomaly"@ =~= underscores_to_spaces("pressure_anomaly"@));
                }
                "pressure anomaly"
            },
            AnomalyKind::HumiditySpike => {
                proof {
                    reveal_strlit("humidity_spike");
                    reveal_strlit("humidity spike");
                    assert("humidity spike"@ =~= underscores_to_spaces("humidity_spike"@));
                }
                "humidity spike"
            },
            AnomalyKind::WindShear => {
                proof {
                    reveal_strlit("wind_shear");
                    reveal_strlit("wind shear");
                    assert("wind shear"@ =~= underscores_to_spaces("wind_shear"@));
                }
                "wind shear"
            },
        }
    }
}

/// `raw` brought into [`MIN_ANOMALIES`, `MAX_ANOMALIES`].
pub open spec fn clamped_anomaly_count(raw: int) -> int {
    if raw < MIN_ANOMALIES {
        MIN_ANOMALIES as int
    } else if raw > MAX_ANOMALIES {
        MAX_ANOMALIES as int
    } else {
        raw
    }
}

/// The number of anomalies reported for a region whose size suggests
/// `raw`: never fewer than 3 nor more than 20.
pub fn anomaly_count(raw: usize) -> (count: usize)
    ensures
        count == clamped_anomaly_count(raw as int),
        3 <= count <= 20,
        3 <= raw <= 20 ==> count == raw,
        raw < 3 ==> count == 3,
        raw > 20 ==> count == 20,
{
    if raw < MIN_ANOMALIES {
        MIN_ANOMALIES
    } else if raw > MAX_ANOMALIES {
        MAX_ANOMALIES
    } else {
        raw
    }
}

/// The raw draws behind one reported anomaly: its kind, and the 16-bit
/// fractions of the region's latitude and longitude span at which it lies.
#[derive(Clone, Copy, Debug, PartialEq, Eq, Structural)]
pub struct AnomalyDraw {
    pub kind: AnomalyKind,
    pub lat_bits: u16,
    pub lon_bits: u16,
}

/// Generator state before the `i`-th anomaly is drawn: each anomaly takes
/// one standard step and one step with increment 1.
pub open spec fn anomaly_state(seed: u64, i: nat) -> u64
    decreases i,
{
    if i == 0 {
        seed
    } else {
        lcg_next(lcg_next(anomaly_state(seed, (i - 1) as nat), LCG_INCREMENT), 1)
    }
}

/// The `i`-th anomaly drawn from `seed`: the kind comes from the upper half
/// of the state after the standard step, the latitude from its low 16
/// bits, the longitude from the low 16 bits after the following step.
pub open spec fn anomaly_draw_at(seed: u64, i: nat) -> AnomalyDraw {
    let s1 = lcg_next(anomaly_state(seed, i), LCG_INCREMENT);
    let s2 = lcg_next(s1, 1);
    AnomalyDraw {
        kind: anomaly_kind_at(((s1 >> 32u64) % 5) as int),
        lat_bits: low16(s1),
        lon_bits: low16(s2),
    }
}

/// The first `count` anomalies drawn from `seed`.
pub open spec fn anomaly_draw_seq(seed: u64, count: nat) -> Seq<AnomalyDraw> {
    Seq::new(count, |i: int| anomaly_draw_at(seed, i as nat))
}

/// The `count` anomalies drawn from `seed`, in order.
pub fn anomaly_draws(seed: u64, count: usize) -> (draws: Vec<AnomalyDraw>)
    ensures
        draws@ == anomaly_draw_seq(seed, count as nat),
{
    let mut draws: Vec<AnomalyDraw> = Vec::new();
    let mut state = seed;
    let mut i: usize = 0;
    while i < count
        invariant
            i <= count,
            state == anomaly_state(seed, i as nat),
            draws@ =~= anomaly_draw_seq(seed, i as nat),
        decreases count - i,
    {
        state = lcg_step(state, LCG_INCREMENT);
        let index = (state >> 32) % ANOMALY_KIND_COUNT;
        let kind = AnomalyKind::from_index(index);
        let lat_bits = noise_bits(state);
        state = lcg_step(state, 1);
        let lon_bits = noise_bits(state);
        draws.push(AnomalyDraw { kind, lat_bits, lon_bits });
        i = i + 1;
    }
    draws
}

/// The anomalies of a region: `origin_bits` is the bit pattern of the sum
/// of the region's minimum latitude and minimum longitude, which seeds the
/// draws; `raw_count` is the count that the region's size suggests, which
/// is clamped to [3, 20].
pub fn detect_anomalies(origin_bits: u64, raw_count: usize) -> (draws: Vec<AnomalyDraw>)
    ensures
        draws@ == anomaly_draw_seq(
            bits_hash(origin_bits),
            clamped_anomaly_count(raw_count as int) as nat,
        ),
        MIN_ANOMALIES <= draws@.len() <= MAX_ANOMALIES,
{
    let seed = simple_hash_f64_bits(origin_bits);
    let count = anomaly_count(raw_count);
    anomaly_draws(seed, count)
}

/// Detections report between 3 and 20 anomalies: the suggested count
/// itself when it lies in that range, else the nearer bound.
pub proof fn lemma_anomaly_count_clamp(raw: int)
    requires
        raw >= 0,
    ensures
        3 <= clamped_anomaly_count(raw) <= 20,
        3 <= raw <= 20 ==> clamped_anomaly_count(raw) == raw,
        raw < 3 ==> clamped_anomaly_count(raw) == 3,
        raw > 20 ==> clamped_anomaly_count(raw) == 20,
{
}

/// How each anomaly is drawn: one standard generator step gives the state
/// whose upper 32 bits, modulo 5, index the kind list and whose low 16
/// bits place the latitude; one more step with increment 1 gives the
/// state whose low 16 bits place the longitude, and from which the next
/// anomaly is drawn.
pub proof fn lemma_anomaly_draw_steps(seed: u64, i: nat)
    ensures
        ({
            let s0 = anomaly_state(seed, i);
            let s1 = ((s0 as int * 6364136223846793005 + 1442695040888963407)
                % 18446744073709551616) as u64;
            let s2 = ((s1 as int * 6364136223846793005 + 1) % 18446744073709551616) as u64;
            &&& anomaly_state(seed, 0) == seed
            &&& anomaly_state(seed, i + 1) == s2
            &&& anomaly_draw_at(seed, i).kind == anomaly_kind_at(((s1 >> 32u64) % 5) as int)
            &&& anomaly_draw_at(seed, i).lat_bits as int == s1 as int % 65536
            &&& anomaly_draw_at(seed, i).lon_bits as int == s2 as int % 65536
        }),
{
    let s0 = anomaly_state(seed, i);
    assert(anomaly_state(seed, i + 1) == lcg_next(lcg_next(s0, LCG_INCREMENT), 1));
}

/// Asking for fewer anomalies from the same region only drops the last
/// ones: the draws for `n1` are a prefix of the draws for `n2 >= n1`.
pub proof fn lemma_anomaly_draws_prefix(seed: u64, n1: nat, n2: nat)
    requires
        n1 <= n2,
    ensures
        anomaly_draw_seq(seed, n1) == anomaly_draw_seq(seed, n2).take(n1 as int),
{
    assert(anomaly_draw_seq(seed, n1) =~= anomaly_draw_seq(seed, n2).take(n1 as int));
}

} // verus!
