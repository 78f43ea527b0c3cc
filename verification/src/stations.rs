//! The station directory and program schedule as the core sees them:
//! plain records mirroring the upstream XML, cyclic station navigation,
//! and the choice of the programme currently on air. The XML itself is
//! decoded by the glue code; the records here carry only plain values.
use vstd::prelude::*;
use crate::timestamp::{compact_pattern, compact_ts, parse_compact, Timestamp};

verus! {

/// One selectable station.
#[derive(Debug)]
pub struct Station {
    pub id: String,
    pub name: String,
    pub area_id: String,
}

/// The stations of one region, as the directory groups them.
#[derive(Debug)]
pub struct Stations {
    pub station: Vec<Station>,
    pub region_id: String,
    pub region_name: String,
}

/// The whole station directory.
#[derive(Debug)]
pub struct Region {
    pub stations: Vec<Stations>,
}

/// One playlist URL entry.
#[derive(Debug)]
pub struct Urls {
    pub value: String,
}

/// The playlist lookup's answer: candidate playlist URLs.
#[derive(Debug)]
pub struct PlaylistUrl {
    pub url: Vec<Urls>,
}

/// One programme: from/to as compact `YYYYMMDDHHMMSS` strings, a title
/// and a description.
#[derive(Debug)]
pub struct Prog {
    pub ft: String,
    pub to: String,
    pub title: String,
    pub info: String,
}

/// A day's programmes.
#[derive(Debug)]
pub struct Progs {
    pub prog: Vec<Prog>,
}

/// The schedule of one station.
#[derive(Debug)]
pub struct PStation {
    pub progs: Progs,
}

/// Wrapper grouping the schedule's station entry.
#[derive(Debug)]
pub struct PStations {
    pub station: PStation,
}

/// The current-programme document.
#[derive(Debug)]
pub struct CurrentProg {
    pub stations: PStations,
}

/// All stations of all regions, flattened in directory order.
pub open spec fn all_stations(groups: Seq<Stations>) -> Seq<Station>
    decreases groups.len(),
{
    if groups.len() == 0 {
        Seq::empty()
    } else {
        groups[0].station@ + all_stations(groups.skip(1))
    }
}

/// Flatten the directory into one selectable list, in directory order.
pub fn flatten_stations(region: Region) -> (list: Vec<Station>)
    ensures
        list@ == all_stations(region.stations@),
{
    let mut groups = region.stations;
    let ghost orig = groups@;
    let mut list: Vec<Station> = Vec::new();
    proof {
        assert(list@ + all_stations(orig) =~= all_stations(orig));
    }
    while groups.len() > 0
        invariant
            list@ + all_stations(groups@) == all_stations(orig),
        decreases groups@.len(),
    {
        proof {
            assert(groups@.skip(1) =~= groups@.remove(0));
        }
        let mut group = groups.remove(0);
        while group.station.len() > 0
            invariant
                list@ + group.station@ + all_stations(groups@) == all_stations(orig),
            decreases group.station@.len(),
        {
            let st = group.station.remove(0);
            list.push(st);
            proof {
                assert(list@ + group.station@ =~= list@.drop_last() + (seq![
                    list@.last(),
                ] + group.station@));
            }
        }
        proof {
            assert(list@ + group.station@ =~= list@);
        }
    }
    proof {
        assert(all_stations(groups@) =~= Seq::<Station>::empty());
        assert(list@ + all_stations(groups@) =~= list@);
    }
    list
}

/// Index of the first station named `name`, if any.
pub fn find_station(stations: &Vec<Station>, name: &String) -> (r: Option<usize>)
    ensures
        match r {
            Some(i) => {
                &&& i < stations@.len()
                &&& stations@[i as int].name@ == name@
                &&& forall|j: int| 0 <= j < i ==> stations@[j].name@ != name@
            },
            None => forall|j: int| 0 <= j < stations@.len() ==> stations@[j].name@ != name@,
        },
{
    let mut i: usize = 0;
    while i < stations.len()
        invariant
            i <= stations@.len(),
            forall|j: int| 0 <= j < i ==> stations@[j].name@ != name@,
        decreases stations@.len() - i,
    {
        if stations[i].name.eq(name) {
            return Some(i);
        }
        i += 1;
    }
    None
}

/// Index of the last station named `name`, if any.
fn rfind_station(stations: &Vec<Station>, name: &String) -> (r: Option<usize>)
    ensures
        match r {
            Some(i) => {
                &&& i < stations@.len()
                &&& stations@[i as int].name@ == name@
                &&& forall|j: int| i < j < stations@.len() ==> stations@[j].name@ != name@
            },
            None => forall|j: int| 0 <= j < stations@.len() ==> stations@[j].name@ != name@,
        },
{
    let mut i: usize = stations.len();
    while i > 0
        invariant
            i <= stations@.len(),
            forall|j: int| i <= j < stations@.len() ==> stations@[j].name@ != name@,
        decreases i,
    {
        i -= 1;
        if stations[i].name.eq(name) {
            return Some(i);
        }
    }
    None
}

/// Index of the station after the one currently named `current`, cycling
/// past the end of the list back to its start. `None` when no station
/// carries that name (a station error for the caller).
pub fn next_station(stations: &Vec<Station>, current: &String) -> (r: Option<usize>)
    ensures
        match r {
            Some(k) => exists|i: int|
                {
                    &&& 0 <= i < stations@.len()
                    &&& stations@[i].name@ == current@
                    &&& forall|j: int| 0 <= j < i ==> stations@[j].name@ != current@
                    &&& k == (i + 1) % (stations@.len() as int)
                },
            None => forall|j: int| 0 <= j < stations@.len() ==> stations@[j].name@ != current@,
        },
{
    match find_station(stations, current) {
        Some(i) => {
            let len = stations.len();
            Some((i + 1) % len)
        },
        None => None,
    }
}

/// Index of the station before the one currently named `current`, cycling
/// past the start of the list back to its end. The match scans from the
/// tail, as the reversed rotation does. `None` when no station carries
/// that name.
pub fn prev_station(stations: &Vec<Station>, current: &String) -> (r: Option<usize>)
    ensures
        match r {
            Some(k) => exists|i: int|
                {
                    &&& 0 <= i < stations@.len()
                    &&& stations@[i].name@ == current@
                    &&& forall|j: int| i < j < stations@.len() ==> stations@[j].name@ != current@
                    &&& k == (i - 1 + stations@.len()) % (stations@.len() as int)
                },
            None => forall|j: int| 0 <= j < stations@.len() ==> stations@[j].name@ != current@,
        },
{
    match rfind_station(stations, current) {
        Some(i) => {
            let len = stations.len();
            let k = if i == 0 {
                len - 1
            } else {
                i - 1
            };
            proof {
                vstd::arithmetic::div_mod::lemma_mod_add_multiples_vanish(
                    i - 1,
                    len as int,
                );
                vstd::arithmetic::div_mod::lemma_small_mod(k as nat, len as nat);
            }
            Some(k)
        },
        None => None,
    }
}

/// Does this programme start before `now`? Its `ft` field must be a
/// well-formed compact stamp denoting a real time; a malformed entry
/// never matches.
pub open spec fn prog_started(p: Prog, now_key: u64) -> bool {
    let b = vstd::utf8::encode_utf8(p.ft@);
    &&& compact_pattern(b)
    &&& compact_ts(b).valid()
    &&& compact_ts(b).spec_key() < now_key
}

/// Index of the programme currently on air: the last of the schedule that
/// started before `now`. `None` when none has started yet.
pub fn current_prog_index(progs: &Vec<Prog>, now_key: u64) -> (r: Option<usize>)
    ensures
        match r {
            Some(i) => {
                &&& i < progs@.len()
                &&& prog_started(progs@[i as int], now_key)
                &&& forall|j: int| i < j < progs@.len() ==> !prog_started(progs@[j], now_key)
            },
            None => forall|j: int| 0 <= j < progs@.len() ==> !prog_started(progs@[j], now_key),
        },
{
    let mut i: usize = progs.len();
    while i > 0
        invariant
            i <= progs@.len(),
            forall|j: int| i <= j < progs@.len() ==> !prog_started(progs@[j], now_key),
        decreases i,
    {
        i -= 1;
        let ft = parse_compact(progs[i].ft.as_str().as_bytes());
        match ft {
            Some(ts) => {
                if ts.key() < now_key {
                    return Some(i);
                }
            },
            None => {},
        }
    }
    None
}

} // verus!
