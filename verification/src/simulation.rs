//! The integer side of a regional simulation: grid resolution, the catalogue
//! of simulated layers, grid and sample counts, and the deterministic noise
//! drawn for each layer.

use vstd::prelude::*;
use vstd::string::StringSliceAdditionalSpecFns;
use vstd::utf8::{encode_utf8, encode_utf8_decode_utf8};
use crate::hash::{fnv1a, simple_hash_str};
use crate::ident::{is_v4_uuid_text, new_v4_uuid_text};
use crate::rng::{lcg_iterate, lcg_step, low16, noise_bits, lemma_low16_is_remainder, LCG_INCREMENT};

verus! {

/// Most samples drawn for one layer, whatever the size of the grid.
pub const MAX_LAYER_SAMPLES: usize = 1000;

/// Spacing of the simulation grid.
#[derive(Clone, Copy, Debug, PartialEq, Eq, Structural)]
pub enum Resolution {
    Low,
    Medium,
    High,
    Ultra,
}

/// The resolution a request names: `low`, `high` and `ultra` are
/// recognised, every other name means medium.
pub open spec fn resolution_named(name: Seq<char>) -> Resolution {
    if name == "low"@ {
        Resolution::Low
    } else if name == "high"@ {
        Resolution::High
    } else if name == "ultra"@ {
        Resolution::Ultra
    } else {
        Resolution::Medium
    }
}

/// Grid spacing in hundredths of a degree.
pub open spec fn step_hundredths(r: Resolution) -> u32 {
    match r {
        Resolution::Low => 50,
        Resolution::Medium => 10,
        Resolution::High => 5,
        Resolution::Ultra => 1,
    }
}

fn bytes_equal(a: &[u8], b: &[u8]) -> (eq: bool)
    ensures
        eq == (a@ == b@),
{
    if a.len() != b.len() {
        return false;
    }
    let mut i: usize = 0;
    while i < a.len()
        invariant
            a@.len() == b@.len(),
            i <= a@.len(),
            forall|j: int| 0 <= j < i ==> a@[j] == b@[j],
        decreases a@.len() - i,
    {
        if a[i] != b[i] {
            return false;
        }
        i = i + 1;
    }
    proof {
        assert(a@ =~= b@);
    }
    true
}

/// Whether `name` spells `literal`.
fn names_equal(name: &str, literal: &str) -> (eq: bool)
    ensures
        eq == (name@ == literal@),
{
    let eq = bytes_equal(name.as_bytes(), literal.as_bytes());
    proof {
        encode_utf8_decode_utf8(name@);
        encode_utf8_decode_utf8(literal@);
    }
    eq
}

impl Resolution {
    /// The resolution of a request; one that names none means medium.
    pub fn from_request(name: Option<&str>) -> (r: Resolution)
        ensures
            r == match name {
                None => Resolution::Medium,
                Some(n) => resolution_named(n@),
            },
    {
        match name {
            None => Resolution::Medium,
            Some(n) => {
                if names_equal(n, "low") {
                    Resolution::Low
                } else if names_equal(n, "high") {
                    Resolution::High
                } else if names_equal(n, "ultra") {
                    Resolution::Ultra
                } else {
                    Resolution::Medium
                }
            },
        }
    }

    /// Grid spacing in hundredths of a degree: low 0.5, medium 0.1,
    /// high 0.05, ultra 0.01.
    pub fn grid_step_hundredths(self) -> (step: u32)
        ensures
            step == step_hundredths(self),
    {
        match self {
            Resolution::Low => 50,
            Resolution::Medium => 10,
            Resolution::High => 5,
            Resolution::Ultra => 1,
        }
    }
}

/// The documented resolutions: `low` is a 0.5 degree grid, `medium` 0.1,
/// `high` 0.05 and `ultra` 0.01; a name is read as exactly one of them, and
/// any name other than `low`, `high` and `ultra` means medium.
pub proof fn lemma_resolution_names(name: Seq<char>)
    ensures
        resolution_named(name) == Resolution::Low <==> name == "low"@,
        resolution_named(name) == Resolution::High <==> name == "high"@,
        resolution_named(name) == Resolution::Ultra <==> name == "ultra"@,
        resolution_named(name) == Resolution::Medium <==> (name != "low"@ && name != "high"@
            && name != "ultra"@),
        step_hundredths(resolution_named("low"@)) == 50,
        step_hundredths(resolution_named("medium"@)) == 10,
        step_hundredths(resolution_named("high"@)) == 5,
        step_hundredths(resolution_named("ultra"@)) == 1,
{
    reveal_strlit("low");
    reveal_strlit("medium");
    reveal_strlit("high");
    reveal_strlit("ultra");
    assert("low"@.len() == 3 && "high"@.len() == 4 && "ultra"@.len() == 5);
    assert("high"@ != "low"@ && "ultra"@ != "low"@ && "ultra"@ != "high"@);
}

/// Finer resolutions have strictly smaller grid steps, so distinct
/// resolutions never share a step.
pub proof fn lemma_resolution_steps_ordered()
    ensures
        step_hundredths(Resolution::Low) > step_hundredths(Resolution::Medium),
        step_hundredths(Resolution::Medium) > step_hundredths(Resolution::High),
        step_hundredths(Resolution::High) > step_hundredths(Resolution::Ultra),
        step_hundredths(Resolution::Ultra) > 0,
{
}

/// A field that a simulation reports on.
#[derive(Clone, Copy, Debug, PartialEq, Eq, Structural)]
pub enum LayerKind {
    Temperature,
    Pressure,
    Humidity,
    WindSpeed,
    CloudCover,
}

/// The name under which a layer is reported, and which seeds its noise.
pub open spec fn layer_name(k: LayerKind) -> Seq<char> {
    match k {
        LayerKind::Temperature => "temperature"@,
        LayerKind::Pressure => "pressure"@,
        LayerKind::Humidity => "humidity"@,
        LayerKind::WindSpeed => "wind_speed"@,
        LayerKind::CloudCover => "cloud_cover"@,
    }
}

/// Half-width of a layer's noise band, in tenths of the layer's unit.
pub open spec fn layer_range_tenths(k: LayerKind) -> u32 {
    match k {
        LayerKind::Temperature => 50,
        LayerKind::Pressure => 100,
        LayerKind::Humidity => 150,
        LayerKind::WindSpeed => 30,
        LayerKind::CloudCover => 300,
    }
}

/// A layer's sigma, in tenths of its unit; a sample farther than two sigma
/// from the base value counts as an anomaly.
pub open spec fn layer_sigma_tenths(k: LayerKind) -> u32 {
    match k {
        LayerKind::Temperature => 20,
        LayerKind::Pressure => 30,
        LayerKind::Humidity => 50,
        LayerKind::WindSpeed => 15,
        LayerKind::CloudCover => 100,
    }
}

/// A layer's base value when the request gives none, in hundredths of its
/// unit.
pub open spec fn layer_default_base_hundredths(k: LayerKind) -> u32 {
    match k {
        LayerKind::Temperature => 2200,
        LayerKind::Pressure => 101325,
        LayerKind::Humidity => 6500,
        LayerKind::WindSpeed => 500,
        LayerKind::CloudCover => 5000,
    }
}

/// The layers of a simulation, in the order they are reported.
pub open spec fn simulation_layer_order() -> Seq<LayerKind> {
    seq![
        LayerKind::Temperature,
        LayerKind::Pressure,
        LayerKind::Humidity,
        LayerKind::WindSpeed,
        LayerKind::CloudCover,
    ]
}

impl LayerKind {
    /// The layer's reported name.
    pub fn name(self) -> (name: &'static str)
        ensures
            name@ == layer_name(self),
    {
        match self {
            LayerKind::Temperature => "temperature",
            LayerKind::Pressure => "pressure",
            LayerKind::Humidity => "humidity",
            LayerKind::WindSpeed => "wind_speed",
            LayerKind::CloudCover => "cloud_cover",
        }
    }

    /// Half-width of the noise band, in tenths of the layer's unit.
    pub fn range_tenths(self) -> (range: u32)
        ensures
            range == layer_range_tenths(self),
    {
        match self {
            LayerKind::Temperature => 50,
            LayerKind::Pressure => 100,
            LayerKind::Humidity => 150,
            LayerKind::WindSpeed => 30,
            LayerKind::CloudCover => 300,
        }
    }

    /// Sigma, in tenths of the layer's unit.
    pub fn sigma_tenths(self) -> (sigma: u32)
        ensures
            sigma == layer_sigma_tenths(self),
    {
        match self {
            LayerKind::Temperature => 20,
            LayerKind::Pressure => 30,
            LayerKind::Humidity => 50,
            LayerKind::WindSpeed => 15,
            LayerKind::CloudCover => 100,
        }
    }

    /// Base value when the request gives none, in hundredths of the unit.
    pub fn default_base_hundredths(self) -> (base: u32)
        ensures
            base == layer_default_base_hundredths(self),
    {
        match self {
            LayerKind::Temperature => 2200,
            LayerKind::Pressure => 101325,
            LayerKind::Humidity => 6500,
            LayerKind::WindSpeed => 500,
            LayerKind::CloudCover => 5000,
        }
    }
}

/// The simulated layers, in reporting order, with their noise half-range
/// and sigma (tenths) and default base value (hundredths): temperature
/// 5.0/2.0 around 22.0, pressure 10.0/3.0 around 1013.25, humidity
/// 15.0/5.0 around 65.0, wind speed 3.0/1.5 around 5.0, cloud cover
/// 30.0/10.0 around 50.0.
pub proof fn lemma_simulation_layer_table()
    ensures
        simulation_layer_order().len() == 5,
        layer_name(simulation_layer_order()[0]) == "temperature"@,
        layer_name(simulation_layer_order()[1]) == "pressure"@,
        layer_name(simulation_layer_order()[2]) == "humidity"@,
        layer_name(simulation_layer_order()[3]) == "wind_speed"@,
        layer_name(simulation_layer_order()[4]) == "cloud_cover"@,
        layer_range_tenths(simulation_layer_order()[0]) == 50 && layer_sigma_tenths(
            simulation_layer_order()[0],
        ) == 20 && layer_default_base_hundredths(simulation_layer_order()[0]) == 2200,
        layer_range_tenths(simulation_layer_order()[1]) == 100 && layer_sigma_tenths(
            simulation_layer_order()[1],
        ) == 30 && layer_default_base_hundredths(simulation_layer_order()[1]) == 101325,
        layer_range_tenths(simulation_layer_order()[2]) == 150 && layer_sigma_tenths(
            simulation_layer_order()[2],
        ) == 50 && layer_default_base_hundredths(simulation_layer_order()[2]) == 6500,
        layer_range_tenths(simulation_layer_order()[3]) == 30 && layer_sigma_tenths(
            simulation_layer_order()[3],
        ) == 15 && layer_default_base_hundredths(simulation_layer_order()[3]) == 500,
        layer_range_tenths(simulation_layer_order()[4]) == 300 && layer_sigma_tenths(
            simulation_layer_order()[4],
        ) == 100 && layer_default_base_hundredths(simulation_layer_order()[4]) == 5000,
{
}

/// Each layer kind is simulated exactly once, and distinct layers have
/// distinct names (hence their own noise seeds).
pub proof fn lemma_simulation_layers_distinct(i: int, j: int)
    requires
        0 <= i < 5,
        0 <= j < 5,
        i != j,
    ensures
        simulation_layer_order()[i] != simulation_layer_order()[j],
        layer_name(simulation_layer_order()[i]) != layer_name(simulation_layer_order()[j]),
{
    reveal_strlit("temperature");
    reveal_strlit("pressure");
    reveal_strlit("humidity");
    reveal_strlit("wind_speed");
    reveal_strlit("cloud_cover");
    let a = layer_name(simulation_layer_order()[i]);
    let b = layer_name(simulation_layer_order()[j]);
    if a.len() == b.len() {
        assert(a[0] != b[0]);
    }
}

/// The layers of a simulation, in reporting order.
pub fn simulation_layers() -> (layers: Vec<LayerKind>)
    ensures
        layers@ == simulation_layer_order(),
{
    let mut layers: Vec<LayerKind> = Vec::new();
    layers.push(LayerKind::Temperature);
    layers.push(LayerKind::Pressure);
    layers.push(LayerKind::Humidity);
    layers.push(LayerKind::WindSpeed);
    layers.push(LayerKind::CloudCover);
    proof {
        assert(layers@ =~= simulation_layer_order());
    }
    layers
}

/// Number of samples drawn for a grid of `points` points.
pub open spec fn sample_count_for(points: int) -> int {
    if points < MAX_LAYER_SAMPLES {
        points
    } else {
        MAX_LAYER_SAMPLES as int
    }
}

/// The first `count` noise values of a layer whose generator is seeded with
/// `seed`: the low 16 bits of each successive state.
pub open spec fn layer_noise_seq(seed: u64, count: nat) -> Seq<u16> {
    Seq::new(count, |i: int| low16(lcg_iterate(seed, (i + 1) as nat)))
}

/// The seed of a layer's generator: the FNV-1a hash of its UTF-8 name.
pub open spec fn name_seed(name: Seq<char>) -> u64 {
    fnv1a(encode_utf8(name))
}

/// Number of points of a `rows` by `cols` grid.
pub fn grid_point_count(rows: usize, cols: usize) -> (points: usize)
    requires
        rows * cols <= usize::MAX,
    ensures
        points == rows * cols,
{
    rows * cols
}

/// Number of samples drawn per layer on a `rows` by `cols` grid: every
/// point, but never more than `MAX_LAYER_SAMPLES`.
pub fn layer_sample_count(rows: usize, cols: usize) -> (count: usize)
    requires
        rows * cols <= usize::MAX,
    ensures
        count == sample_count_for(rows * cols),
        count <= 1000,
        rows * cols < 1000 ==> count == rows * cols,
        rows * cols >= 1000 ==> count == 1000,
{
    let n = rows * cols;
    if n < MAX_LAYER_SAMPLES {
        n
    } else {
        MAX_LAYER_SAMPLES
    }
}

/// The noise drawn for the layer called `name` on a `rows` by `cols` grid.
pub fn layer_noise_bits(name: &str, rows: usize, cols: usize) -> (noise: Vec<u16>)
    requires
        rows * cols <= usize::MAX,
    ensures
        noise@ == layer_noise_seq(name_seed(name@), sample_count_for(rows * cols) as nat),
        noise@.len() == if rows * cols < 1000 {
            rows * cols
        } else {
            1000
        },
        forall|i: int|
            0 <= i < noise@.len() ==> #[trigger] noise@[i] as int == lcg_iterate(
                fnv1a(name.spec_bytes()),
                (i + 1) as nat,
            ) % 65536,
{
    proof {
        lemma_sample_count_is_grid_size_up_to_cap(rows * cols);
    }
    let count = layer_sample_count(rows, cols);
    let mut noise: Vec<u16> = Vec::new();
    let mut state = simple_hash_str(name);
    let ghost seed = state;
    let mut i: usize = 0;
    while i < count
        invariant
            i <= count,
            seed == name_seed(name@),
            state == lcg_iterate(seed, i as nat),
            noise@ =~= layer_noise_seq(seed, i as nat),
        decreases count - i,
    {
        state = lcg_step(state, LCG_INCREMENT);
        noise.push(noise_bits(state));
        i = i + 1;
    }
    proof {
        assert forall|i: int| 0 <= i < noise@.len() implies #[trigger] noise@[i] as int
            == lcg_iterate(fnv1a(name.spec_bytes()), (i + 1) as nat) % 65536 by {
            lemma_low16_is_remainder(lcg_iterate(seed, (i + 1) as nat));
        }
    }
    noise
}

/// A layer's noise depends on the grid only through the number of samples:
/// the noise of a grid with fewer samples is a prefix of the noise of one
/// with more.
pub proof fn lemma_layer_noise_prefix(seed: u64, n1: nat, n2: nat)
    requires
        n1 <= n2,
    ensures
        layer_noise_seq(seed, n1) == layer_noise_seq(seed, n2).take(n1 as int),
{
    assert(layer_noise_seq(seed, n1) =~= layer_noise_seq(seed, n2).take(n1 as int));
}

/// A layer samples every point of its grid, up to a cap of 1000: a grid of
/// fewer than 1000 points gets one sample per point, a larger one exactly
/// 1000.
pub proof fn lemma_sample_count_is_grid_size_up_to_cap(points: int)
    requires
        points >= 0,
    ensures
        points < 1000 ==> sample_count_for(points) == points,
        points >= 1000 ==> sample_count_for(points) == 1000,
        0 <= sample_count_for(points) <= points,
        sample_count_for(points) <= 1000,
{
}

/// Sampling is capped: every grid with at least 1000 points draws exactly
/// 1000 samples, so all such grids draw the same noise for a layer.
pub proof fn lemma_large_grids_share_noise(seed: u64, points1: int, points2: int)
    requires
        points1 >= 1000,
        points2 >= 1000,
    ensures
        sample_count_for(points1) == 1000,
        layer_noise_seq(seed, sample_count_for(points1) as nat) == layer_noise_seq(
            seed,
            sample_count_for(points2) as nat,
        ),
{
}

/// The noise of one simulated layer.
pub struct LayerSamples {
    pub kind: LayerKind,
    pub noise: Vec<u16>,
}

/// The deterministic part of one simulation run.
pub struct SimulationRun {
    pub simulation_id: String,
    pub grid_points: usize,
    pub layers: Vec<LayerSamples>,
}

/// Runs a simulation on a `grid_lat` by `grid_lon` grid: a fresh random
/// identifier, the grid's size, and every layer's noise in reporting order.
pub fn run_simulation(grid_lat: usize, grid_lon: usize) -> (run: SimulationRun)
    requires
        grid_lat * grid_lon <= usize::MAX,
    ensures
        is_v4_uuid_text(run.simulation_id@),
        run.grid_points == grid_lat * grid_lon,
        run.layers@.len() == 5,
        forall|i: int|
            0 <= i < run.layers@.len() ==> (#[trigger] run.layers@[i]).noise@.len() == if grid_lat
                * grid_lon < 1000 {
                grid_lat * grid_lon
            } else {
                1000
            },
        forall|i: int|
            0 <= i < run.layers@.len() ==> {
                &&& (#[trigger] run.layers@[i]).kind == simulation_layer_order()[i]
                &&& run.layers@[i].noise@ == layer_noise_seq(
                    name_seed(layer_name(simulation_layer_order()[i])),
                    sample_count_for(grid_lat * grid_lon) as nat,
                )
            },
{
    let kinds = simulation_layers();
    let mut layers: Vec<LayerSamples> = Vec::new();
    let mut i: usize = 0;
    while i < kinds.len()
        invariant
            kinds@ == simulation_layer_order(),
            grid_lat * grid_lon <= usize::MAX,
            i <= kinds@.len(),
            layers@.len() == i,
            forall|j: int|
                0 <= j < i ==> {
                    &&& (#[trigger] layers@[j]).kind == simulation_layer_order()[j]
                    &&& layers@[j].noise@ == layer_noise_seq(
                        name_seed(layer_name(simulation_layer_order()[j])),
                        sample_count_for(grid_lat * grid_lon) as nat,
                    )
                },
        decreases kinds@.len() - i,
    {
        let kind = kinds[i];
        let noise = layer_noise_bits(kind.name(), grid_lat, grid_lon);
        layers.push(LayerSamples { kind, noise });
        i = i + 1;
    }
    proof {
        lemma_sample_count_is_grid_size_up_to_cap(grid_lat * grid_lon);
    }
    let simulation_id = new_v4_uuid_text();
    let grid_points = grid_point_count(grid_lat, grid_lon);
    SimulationRun { simulation_id, grid_points, layers }
}

} // verus!
