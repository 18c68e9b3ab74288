//! The integer side of a multi-hour forecast: the requested horizon, the
//! hourly noise draws, and the classification of the sky.

use vstd::prelude::*;
use crate::hash::{bits_hash, simple_hash_f64_bits};
use crate::rng::{lcg_next, lcg_step, low16, noise_bits};

verus! {

/// Horizon of a forecast whose request names none, in hours.
pub const DEFAULT_FORECAST_HOURS: u32 = 24;

/// Generator state after the draw for hour `h`: the draw for hour `h` is
/// one step with increment `h`.
pub open spec fn forecast_state(seed: u64, h: nat) -> u64
    decreases h,
{
    if h == 0 {
        seed
    } else {
        lcg_next(forecast_state(seed, (h - 1) as nat), h as u64)
    }
}

/// The raw values behind the forecast for one hour.
#[derive(Clone, Copy, Debug, PartialEq, Eq, Structural)]
pub struct ForecastDraw {
    /// Hours ahead, from 1.
    pub hour: u32,
    /// `hour` modulo 24, the hour of the diurnal cycle.
    pub hour_of_day: u32,
    /// The 16 bits of noise for this hour.
    pub noise_bits: u16,
}

/// The draw for hour `h` (from 1) from `seed`.
pub open spec fn forecast_draw_at(seed: u64, h: nat) -> ForecastDraw {
    ForecastDraw {
        hour: h as u32,
        hour_of_day: (h % 24) as u32,
        noise_bits: low16(forecast_state(seed, h)),
    }
}

/// The draws for hours 1 to `hours` from `seed`.
pub open spec fn forecast_draw_seq(seed: u64, hours: nat) -> Seq<ForecastDraw> {
    Seq::new(hours, |i: int| forecast_draw_at(seed, (i + 1) as nat))
}

/// The horizon of a request, 24 hours when it names none.
pub fn forecast_hours(requested: Option<u32>) -> (hours: u32)
    ensures
        requested is None ==> hours == 24,
        requested is Some ==> hours == requested->0,
        hours == match requested {
            Some(h) => h,
            None => DEFAULT_FORECAST_HOURS,
        },
{
    match requested {
        Some(h) => h,
        None => DEFAULT_FORECAST_HOURS,
    }
}

/// The draws for hours 1 to `hours` from `seed`, in order.
pub fn forecast_draws(seed: u64, hours: u32) -> (draws: Vec<ForecastDraw>)
    ensures
        draws@ == forecast_draw_seq(seed, hours as nat),
        draws@.len() == hours,
        forall|i: int|
            0 <= i < draws@.len() ==> {
                &&& (#[trigger] draws@[i]).hour == i + 1
                &&& draws@[i].hour_of_day == draws@[i].hour % 24
            },
{
    let mut draws: Vec<ForecastDraw> = Vec::new();
    let mut state = seed;
    let mut h: u32 = 0;
    while h < hours
        invariant
            h <= hours,
            state == forecast_state(seed, h as nat),
            draws@ =~= forecast_draw_seq(seed, h as nat),
        decreases hours - h,
    {
        h = h + 1;
        state = lcg_step(state, h as u64);
        draws.push(ForecastDraw { hour: h, hour_of_day: h % 24, noise_bits: noise_bits(state) });
    }
    draws
}

/// The draws of a forecast at a location: `location_bits` is the bit
/// pattern of `lat * 1000 + lon`, which seeds them, and `requested` the
/// horizon that the request names.
pub fn plan_forecast(location_bits: u64, requested: Option<u32>) -> (draws: Vec<ForecastDraw>)
    ensures
        draws@ == forecast_draw_seq(
            bits_hash(location_bits),
            match requested {
                Some(h) => h as nat,
                None => DEFAULT_FORECAST_HOURS as nat,
            },
        ),
{
    let seed = simple_hash_f64_bits(location_bits);
    let hours = forecast_hours(requested);
    forecast_draws(seed, hours)
}

/// Forecast hours are numbered 1, 2, ... and each carries its hour on the
/// 24-hour clock: `hour % 24`, which is below 24, equals the hour itself
/// for hours 1 to 23, and is 0 at hour 24.
pub proof fn lemma_forecast_hours_on_clock(seed: u64, n: nat)
    requires
        n <= u32::MAX,
    ensures
        forecast_draw_seq(seed, n).len() == n,
        forall|i: int|
            0 <= i < n ==> {
                let d = #[trigger] forecast_draw_seq(seed, n)[i];
                &&& d.hour == i + 1
                &&& d.hour_of_day == d.hour % 24
                &&& d.hour_of_day < 24
                &&& d.hour < 24 ==> d.hour_of_day == d.hour
                &&& d.hour == 24 ==> d.hour_of_day == 0
            },
{
    assert forall|i: int| 0 <= i < n implies {
        let d = #[trigger] forecast_draw_seq(seed, n)[i];
        &&& d.hour == i + 1
        &&& d.hour_of_day == d.hour % 24
        &&& d.hour_of_day < 24
        &&& d.hour < 24 ==> d.hour_of_day == d.hour
        &&& d.hour == 24 ==> d.hour_of_day == 0
    } by {
        let d = forecast_draw_seq(seed, n)[i];
        assert(d == forecast_draw_at(seed, (i + 1) as nat));
        assert(d.hour == i + 1);
    }
}

/// The noise of hour `h` comes from one generator step with increment `h`
/// from the state of the hour before: `state * 6364136223846793005 + h`
/// modulo 2^64, of which the low 16 bits are the noise.
pub proof fn lemma_forecast_noise_steps(seed: u64, h: nat)
    requires
        h + 1 <= u64::MAX,
    ensures
        forecast_state(seed, 0) == seed,
        forecast_state(seed, h + 1) as int == (forecast_state(seed, h) as int * 6364136223846793005
            + h + 1) % 18446744073709551616,
        forecast_draw_at(seed, h + 1).noise_bits as int == forecast_state(seed, h + 1) as int
            % 65536,
{
    assert(forecast_state(seed, h + 1) == lcg_next(forecast_state(seed, h), (h + 1) as u64));
}

/// The hour-by-hour draws do not depend on the horizon: a shorter forecast
/// from the same seed is a prefix of a longer one.
pub proof fn lemma_forecast_draws_prefix(seed: u64, h1: nat, h2: nat)
    requires
        h1 <= h2,
    ensures
        forecast_draw_seq(seed, h1) == forecast_draw_seq(seed, h2).take(h1 as int),
{
    assert(forecast_draw_seq(seed, h1) =~= forecast_draw_seq(seed, h2).take(h1 as int));
}

/// The sky of one forecast hour.
#[derive(Clone, Copy, Debug, PartialEq, Eq, Structural)]
pub enum Conditions {
    Clear,
    PartlyCloudy,
    Cloudy,
    Rain,
    Snow,
}

/// The sky for an hour, from the comparisons that decide it: precipitation
/// probability above 0.6, above 0.3, temperature below 0 C, humidity above
/// 60 %.
pub open spec fn conditions_for(
    precip_above_0_6: bool,
    precip_above_0_3: bool,
    below_freezing: bool,
    humidity_above_60: bool,
) -> Conditions {
    if precip_above_0_6 {
        if below_freezing {
            Conditions::Snow
        } else {
            Conditions::Rain
        }
    } else if precip_above_0_3 {
        Conditions::Cloudy
    } else if humidity_above_60 {
        Conditions::PartlyCloudy
    } else {
        Conditions::Clear
    }
}

/// The name under which conditions are reported.
pub open spec fn conditions_name(c: Conditions) -> Seq<char> {
    match c {
        Conditions::Clear => "Clear"@,
        Conditions::PartlyCloudy => "Partly Cloudy"@,
        Conditions::Cloudy => "Cloudy"@,
        Conditions::Rain => "Rain"@,
        Conditions::Snow => "Snow"@,
    }
}

/// Classifies the sky of an hour.
pub fn classify_conditions(
    precip_above_0_6: bool,
    precip_above_0_3: bool,
    below_freezing: bool,
    humidity_above_60: bool,
) -> (c: Conditions)
    ensures
        c == conditions_for(precip_above_0_6, precip_above_0_3, below_freezing, humidity_above_60),
        (c == Conditions::Rain || c == Conditions::Snow) <==> precip_above_0_6,
        c == Conditions::Snow <==> (precip_above_0_6 && below_freezing),
        c == Conditions::Cloudy <==> (!precip_above_0_6 && precip_above_0_3),
        c == Conditions::PartlyCloudy <==> (!precip_above_0_6 && !precip_above_0_3
            && humidity_above_60),
        c == Conditions::Clear <==> (!precip_above_0_6 && !precip_above_0_3 && !humidity_above_60),
{
    if precip_above_0_6 {
        if below_freezing {
            Conditions::Snow
        } else {
            Conditions::Rain
        }
    } else if precip_above_0_3 {
        Conditions::Cloudy
    } else if humidity_above_60 {
        Conditions::PartlyCloudy
    } else {
        Conditions::Clear
    }
}

impl Conditions {
    /// The reported name, such as `Partly Cloudy`.
    pub fn name(self) -> (name: &'static str)
        ensures
            name@ == conditions_name(self),
    {
        match self {
            Conditions::Clear => "Clear",
            Conditions::PartlyCloudy => "Partly Cloudy",
            Conditions::Cloudy => "Cloudy",
            Conditions::Rain => "Rain",
            Conditions::Snow => "Snow",
        }
    }
}

/// How the sky is decided: above 0.6 precipitation probability it rains,
/// or snows below freezing; otherwise above 0.3 it is cloudy; otherwise it
/// is partly cloudy exactly when humidity is above 60 %, and clear
/// otherwise. Temperature matters only for precipitation, and humidity
/// only when precipitation is unlikely.
pub proof fn lemma_conditions_decision(p6: bool, p3: bool, cold: bool, humid: bool, cold2: bool, humid2: bool)
    ensures
        (conditions_for(p6, p3, cold, humid) == Conditions::Rain || conditions_for(p6, p3, cold, humid)
            == Conditions::Snow) <==> p6,
        conditions_for(p6, p3, cold, humid) == Conditions::Snow <==> (p6 && cold),
        conditions_for(p6, p3, cold, humid) == Conditions::Cloudy <==> (!p6 && p3),
        conditions_for(p6, p3, cold, humid) == Conditions::PartlyCloudy <==> (!p6 && !p3 && humid),
        conditions_for(p6, p3, cold, humid) == Conditions::Clear <==> (!p6 && !p3 && !humid),
        !p6 ==> conditions_for(p6, p3, cold, humid) == conditions_for(p6, p3, cold2, humid),
        (p6 || p3) ==> conditions_for(p6, p3, cold, humid) == conditions_for(p6, p3, cold, humid2),
{
}

/// The five documented skies and their names: Clear, Partly Cloudy,
/// Cloudy, Rain, Snow; distinct skies have distinct names.
pub proof fn lemma_conditions_names(a: Conditions, b: Conditions)
    ensures
        conditions_name(Conditions::Clear) == "Clear"@,
        conditions_name(Conditions::PartlyCloudy) == "Partly Cloudy"@,
        conditions_name(Conditions::Cloudy) == "Cloudy"@,
        conditions_name(Conditions::Rain) == "Rain"@,
        conditions_name(Conditions::Snow) == "Snow"@,
        a != b ==> conditions_name(a) != conditions_name(b),
{
    reveal_strlit("Clear");
    reveal_strlit("Partly Cloudy");
    reveal_strlit("Cloudy");
    reveal_strlit("Rain");
    reveal_strlit("Snow");
    let x = conditions_name(a);
    let y = conditions_name(b);
    if a != b && x.len() == y.len() {
        assert(x[0] != y[0]);
    }
}

} // verus!
