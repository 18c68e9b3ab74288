//! The predefined climate monitoring regions.

use vstd::prelude::*;

verus! {

/// Number of predefined regions.
pub const REGION_COUNT: usize = 6;

/// A monitored region: a name, a description, and its latitude and
/// longitude bounds in tenths of a degree.
#[derive(Clone, Debug)]
pub struct RegionInfo {
    pub name: String,
    pub description: String,
    pub lat_min_tenths: i32,
    pub lat_max_tenths: i32,
    pub lon_min_tenths: i32,
    pub lon_max_tenths: i32,
}

/// Entry `i` of the region catalogue: name, description, and the bounds
/// (lat_min, lat_max, lon_min, lon_max) in tenths of a degree.
pub open spec fn region_entry(i: int) -> (Seq<char>, Seq<char>, int, int, int, int) {
    if i == 0 {
        ("Tokyo Metropolitan"@, "Greater Tokyo Area, Japan"@, 355, 359, 1394, 1400)
    } else if i == 1 {
        ("North Atlantic"@, "North Atlantic storm track region"@, 300, 600, -600, -100)
    } else if i == 2 {
        ("Sahara"@, "Sahara Desert, heat anomaly monitoring"@, 150, 350, -150, 400)
    } else if i == 3 {
        (
            "Amazon Basin"@,
            "Amazon rainforest humidity and deforestation monitoring"@,
            -100,
            50,
            -750,
            -450,
        )
    } else if i == 4 {
        (
            "Arctic Circle"@,
            "Arctic ice monitoring and polar vortex tracking"@,
            660,
            900,
            -1800,
            1800,
        )
    } else {
        ("Southeast Asia"@, "Monsoon patterns and tropical cyclone region"@, -100, 250, 950, 1400)
    }
}

/// `r` holds catalogue entry `i`.
pub open spec fn matches_entry(r: RegionInfo, i: int) -> bool {
    let e = region_entry(i);
    &&& r.name@ == e.0
    &&& r.description@ == e.1
    &&& r.lat_min_tenths == e.2
    &&& r.lat_max_tenths == e.3
    &&& r.lon_min_tenths == e.4
    &&& r.lon_max_tenths == e.5
}

fn region(
    name: &str,
    description: &str,
    lat_min_tenths: i32,
    lat_max_tenths: i32,
    lon_min_tenths: i32,
    lon_max_tenths: i32,
) -> (r: RegionInfo)
    ensures
        r.name@ == name@,
        r.description@ == description@,
        r.lat_min_tenths == lat_min_tenths,
        r.lat_max_tenths == lat_max_tenths,
        r.lon_min_tenths == lon_min_tenths,
        r.lon_max_tenths == lon_max_tenths,
{
    RegionInfo {
        name: name.to_owned(),
        description: description.to_owned(),
        lat_min_tenths,
        lat_max_tenths,
        lon_min_tenths,
        lon_max_tenths,
    }
}

/// The catalogue of monitored regions, in its fixed order.
pub fn regions() -> (list: Vec<RegionInfo>)
    ensures
        list@.len() == REGION_COUNT,
        forall|i: int| 0 <= i < REGION_COUNT ==> matches_entry(#[trigger] list@[i], i),
{
    let mut list: Vec<RegionInfo> = Vec::new();
    list.push(region("Tokyo Metropolitan", "Greater Tokyo Area, Japan", 355, 359, 1394, 1400));
    list.push(region("North Atlantic", "North Atlantic storm track region", 300, 600, -600, -100));
    list.push(region("Sahara", "Sahara Desert, heat anomaly monitoring", 150, 350, -150, 400));
    list.push(
        region(
            "Amazon Basin",
            "Amazon rainforest humidity and deforestation monitoring",
            -100,
            50,
            -750,
            -450,
        ),
    );
    list.push(
        region(
            "Arctic Circle",
            "Arctic ice monitoring and polar vortex tracking",
            660,
            900,
            -1800,
            1800,
        ),
    );
    list.push(
        region(
            "Southeast Asia",
            "Monsoon patterns and tropical cyclone region",
            -100,
            250,
            950,
            1400,
        ),
    );
    proof {
        assert(matches_entry(list@[0], 0));
        assert(matches_entry(list@[1], 1));
        assert(matches_entry(list@[2], 2));
        assert(matches_entry(list@[3], 3));
        assert(matches_entry(list@[4], 4));
        assert(matches_entry(list@[5], 5));
    }
    list
}

/// Every catalogued region is a proper box on the globe: each minimum lies
/// below its maximum, latitudes within [-90, 90] degrees and longitudes
/// within [-180, 180] degrees.
pub proof fn lemma_regions_well_formed(i: int)
    requires
        0 <= i < REGION_COUNT,
    ensures
        -900 <= region_entry(i).2 < region_entry(i).3 <= 900,
        -1800 <= region_entry(i).4 < region_entry(i).5 <= 1800,
{
}

/// No two catalogued regions share a name.
pub proof fn lemma_region_names_distinct(i: int, j: int)
    requires
        0 <= i < REGION_COUNT,
        0 <= j < REGION_COUNT,
        i != j,
    ensures
        region_entry(i).0 != region_entry(j).0,
{
    reveal_strlit("Tokyo Metropolitan");
    reveal_strlit("North Atlantic");
    reveal_strlit("Sahara");
    reveal_strlit("Amazon Basin");
    reveal_strlit("Arctic Circle");
    reveal_strlit("Southeast Asia");
    let a = region_entry(i).0;
    let b = region_entry(j).0;
    if a.len() == b.len() {
        assert(a[0] != b[0] || a[1] != b[1]);
    }
}

/// Region `i` contains the point at `lat_tenths`, `lon_tenths` (tenths of
/// a degree), bounds included.
pub open spec fn region_contains(i: int, lat_tenths: int, lon_tenths: int) -> bool {
    let e = region_entry(i);
    e.2 <= lat_tenths <= e.3 && e.4 <= lon_tenths <= e.5
}

/// The documented description and bounds of each named region, in degrees: Tokyo
/// Metropolitan 35.5..35.9 N, 139.4..140.0 E; North Atlantic 30..60 N,
/// 60..10 W; Sahara 15..35 N, 15 W..40 E; Amazon Basin 10 S..5 N,
/// 75..45 W; Arctic Circle 66 N..90 N, all longitudes; Southeast Asia
/// 10 S..25 N, 95..140 E.
pub proof fn lemma_region_bounds_by_name(i: int)
    requires
        0 <= i < REGION_COUNT,
    ensures
        region_entry(i).0 == "Tokyo Metropolitan"@ ==> region_entry(i).1
            == "Greater Tokyo Area, Japan"@,
        region_entry(i).0 == "North Atlantic"@ ==> region_entry(i).1
            == "North Atlantic storm track region"@,
        region_entry(i).0 == "Sahara"@ ==> region_entry(i).1
            == "Sahara Desert, heat anomaly monitoring"@,
        region_entry(i).0 == "Amazon Basin"@ ==> region_entry(i).1
            == "Amazon rainforest humidity and deforestation monitoring"@,
        region_entry(i).0 == "Arctic Circle"@ ==> region_entry(i).1
            == "Arctic ice monitoring and polar vortex tracking"@,
        region_entry(i).0 == "Southeast Asia"@ ==> region_entry(i).1
            == "Monsoon patterns and tropical cyclone region"@,
        region_entry(i).0 == "Tokyo Metropolitan"@ ==> (region_entry(i).2, region_entry(i).3,
            region_entry(i).4, region_entry(i).5) == (355int, 359int, 1394int, 1400int),
        region_entry(i).0 == "North Atlantic"@ ==> (region_entry(i).2, region_entry(i).3,
            region_entry(i).4, region_entry(i).5) == (300int, 600int, -600int, -100int),
        region_entry(i).0 == "Sahara"@ ==> (region_entry(i).2, region_entry(i).3,
            region_entry(i).4, region_entry(i).5) == (150int, 350int, -150int, 400int),
        region_entry(i).0 == "Amazon Basin"@ ==> (region_entry(i).2, region_entry(i).3,
            region_entry(i).4, region_entry(i).5) == (-100int, 50int, -750int, -450int),
        region_entry(i).0 == "Arctic Circle"@ ==> (region_entry(i).2, region_entry(i).3,
            region_entry(i).4, region_entry(i).5) == (660int, 900int, -1800int, 1800int),
        region_entry(i).0 == "Southeast Asia"@ ==> (region_entry(i).2, region_entry(i).3,
            region_entry(i).4, region_entry(i).5) == (-100int, 250int, 950int, 1400int),
{
    if i != 0 {
        lemma_region_names_distinct(i, 0);
    }
    if i != 1 {
        lemma_region_names_distinct(i, 1);
    }
    if i != 2 {
        lemma_region_names_distinct(i, 2);
    }
    if i != 3 {
        lemma_region_names_distinct(i, 3);
    }
    if i != 4 {
        lemma_region_names_distinct(i, 4);
    }
    if i != 5 {
        lemma_region_names_distinct(i, 5);
    }
    assert(region_entry(0).0 == "Tokyo Metropolitan"@);
    assert(region_entry(1).0 == "North Atlantic"@);
    assert(region_entry(2).0 == "Sahara"@);
    assert(region_entry(3).0 == "Amazon Basin"@);
    assert(region_entry(4).0 == "Arctic Circle"@);
    assert(region_entry(5).0 == "Southeast Asia"@);
}

/// Which catalogued regions cover which places: exactly the Amazon Basin
/// and Southeast Asia straddle the equator; Jakarta (6.2 S, 106.8 E) lies
/// only in Southeast Asia, Tokyo (35.7 N, 139.7 E) only in Tokyo
/// Metropolitan, Manaus (3.1 S, 60.0 W) only in the Amazon Basin, the
/// North Pole only in the Arctic Circle, a point at 25.0 N, 5.0 E only in
/// the Sahara, and one at 45.0 N, 30.0 W only in the North Atlantic.
pub proof fn lemma_region_coverage(i: int)
    requires
        0 <= i < REGION_COUNT,
    ensures
        (region_entry(i).2 < 0 < region_entry(i).3) <==> (i == 3 || i == 5),
        region_contains(i, -62, 1068) <==> i == 5,
        region_contains(i, 357, 1397) <==> i == 0,
        region_contains(i, -31, -600) <==> i == 3,
        region_contains(i, 900, 0) <==> i == 4,
        region_contains(i, 250, 50) <==> i == 2,
        region_contains(i, 450, -300) <==> i == 1,
        region_entry(3).0 == "Amazon Basin"@,
        region_entry(5).0 == "Southeast Asia"@,
{
}

} // verus!
