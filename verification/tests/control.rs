use radico::assets::Asset;
use radico::config::{about, args_url, usage, Options};
use radico::errors::RadicoError;
use radico::fetcher::{decide, run_fetch, FetchOutcome, FetchResult, FetchStep};
use radico::queue::{Playlist, SegmentQueue};
use radico::router::{route, volume_numerator, Command};
use radico::scheduler::{filler_plan, plan_downloads, plan_delay, rand, sleep};
use radico::stations::{
    current_prog_index, find_station, flatten_stations, next_station, prev_station, Prog,
    Region, Station, Stations,
};

fn station(id: &str, name: &str) -> Station {
    Station { id: id.to_string(), name: name.to_string(), area_id: "A1".to_string() }
}

#[test]
fn two_server_errors_then_success_costs_two_refreshes() {
    let outcomes = vec![
        FetchOutcome::Status(500),
        FetchOutcome::Status(500),
        FetchOutcome::Status(200),
    ];
    let run = run_fetch(&outcomes);
    assert_eq!(run.result, FetchResult::Success(200));
    assert_eq!(run.attempts, 3);
    assert_eq!(run.refreshes, 2);
}

#[test]
fn three_server_errors_exhaust_the_retries() {
    let outcomes = vec![
        FetchOutcome::Status(500),
        FetchOutcome::Status(500),
        FetchOutcome::Status(500),
    ];
    let run = run_fetch(&outcomes);
    assert_eq!(run.result, FetchResult::ClientError);
    assert_eq!(run.attempts, 3);
    assert_eq!(run.refreshes, 2);
}

#[test]
fn transport_failures_retry_without_refresh() {
    let run = run_fetch(&vec![
        FetchOutcome::Transport,
        FetchOutcome::Transport,
        FetchOutcome::Transport,
    ]);
    assert_eq!(run.result, FetchResult::TransportError);
    assert_eq!(run.attempts, 3);
    assert_eq!(run.refreshes, 0);
    let run = run_fetch(&vec![
        FetchOutcome::Transport,
        FetchOutcome::Status(206),
        FetchOutcome::Transport,
    ]);
    assert_eq!(run.result, FetchResult::Success(206));
    assert_eq!(run.attempts, 2);
    assert_eq!(run.refreshes, 0);
}

#[test]
fn bad_request_and_forbidden_return_without_retry() {
    for status in [200u16, 299, 400, 403] {
        assert_eq!(decide(0, &FetchOutcome::Status(status)), FetchStep::Done);
    }
    assert_eq!(decide(0, &FetchOutcome::Status(401)), FetchStep::RefreshAndRetry);
    assert_eq!(decide(0, &FetchOutcome::Status(301)), FetchStep::RefreshAndRetry);
    assert_eq!(decide(2, &FetchOutcome::Status(500)), FetchStep::FailClient);
    assert_eq!(decide(2, &FetchOutcome::Transport), FetchStep::FailTransport);
}

#[test]
fn volume_curve_is_perceptual() {
    assert_eq!(volume_numerator(9), 81);
    assert_eq!(volume_numerator(0), 0);
    assert_eq!(volume_numerator(3), 9);
    assert_eq!(volume_numerator(9) as f64 / 81.0, 1.0);
    assert_eq!(volume_numerator(0) as f64 / 81.0, 0.0);
    let v3 = volume_numerator(3) as f64 / 81.0;
    assert!((v3 - (3.0f64 / 9.0).powi(2)).abs() < 1e-12);
    assert!((v3 - 0.111).abs() < 1e-3);
}

#[test]
fn keys_route_to_their_commands() {
    assert_eq!(route('0', false), Command::Volume(0));
    assert_eq!(route('9', false), Command::Volume(9));
    assert_eq!(route('5', false), Command::Volume(5));
    assert_eq!(route('n', false), Command::NextStation);
    assert_eq!(route('p', false), Command::PrevStation);
    assert_eq!(route('m', false), Command::StationMenu);
    assert_eq!(route('i', false), Command::InfoRefresh);
    assert_eq!(route('Q', false), Command::Quit);
    assert_eq!(route('c', true), Command::Quit);
    assert_eq!(route('x', false), Command::Ignore);
    assert_eq!(route('q', false), Command::Ignore);
    assert_eq!(route('n', true), Command::Ignore);
}

#[test]
fn out_of_order_listing_is_enqueued_in_playback_order() {
    // Listed newest-first on purpose: playback order must win.
    let urls = vec![
        "seg_20240101_000500.aac".to_string(),
        "seg_20240101_000000.aac".to_string(),
    ];
    let plan = plan_downloads(&urls, 0);
    assert_eq!(plan.len(), 2);
    assert_eq!(plan[0].stamp.key(), 20240101000000);
    assert_eq!(plan[1].stamp.key(), 20240101000500);
    let mut q = SegmentQueue::new();
    for cand in plan {
        let payload = Playlist { url: cand.url, buf: vec![0u8] };
        assert!(q.try_push(payload, cand.stamp));
    }
    let segs = q.drain();
    assert_eq!(segs.len(), 2);
    assert!(segs[0].stamp.key() < segs[1].stamp.key());
    assert!(segs[0].item.url.ends_with("000000.aac"));
}

#[test]
fn plan_drops_old_and_malformed_entries() {
    let urls = vec![
        "seg_20240101_000500.aac".to_string(),
        "not a segment".to_string(),
        "seg_20231231_235959.aac".to_string(),
    ];
    let plan = plan_downloads(&urls, 20240101000000);
    assert_eq!(plan.len(), 1);
    assert_eq!(plan[0].stamp.key(), 20240101000500);
}

#[test]
fn sleep_returns_the_rest_of_the_period() {
    assert_eq!(sleep(0), 5000);
    assert_eq!(sleep(1200), 3800);
    assert_eq!(sleep(5000), 5000);
    assert_eq!(sleep(60_000), 5000);
}

#[test]
fn delay_shrinks_toward_the_programme_boundary() {
    // Boundary 3 s away: wait exactly that long, no early refresh.
    let plan = plan_delay(9000, 1_000_000, 1_003_000);
    assert!(!plan.refresh_info);
    assert_eq!(plan.delay_ms, 3000);
    // Boundary already past: refresh now, pace normally.
    let plan = plan_delay(9000, 1_003_000, 1_000_000);
    assert!(plan.refresh_info);
    assert_eq!(plan.delay_ms, 9000);
    // Boundary far away: pace normally.
    let plan = plan_delay(9000, 1_000_000, 2_000_000);
    assert!(!plan.refresh_info);
    assert_eq!(plan.delay_ms, 9000);
}

#[test]
fn filler_fires_only_when_the_buffer_runs_low() {
    let clip = filler_plan(0);
    assert!(clip.is_some());
    assert!(clip.unwrap() < 6);
    assert!(filler_plan(82919).is_some());
    assert!(filler_plan(82920).is_none());
    assert!(filler_plan(10_000_000).is_none());
}

#[test]
fn random_pick_always_names_a_clip() {
    for _ in 0..100 {
        let pick = rand();
        assert!(pick < 6);
        assert!(Asset::from_index(pick).is_some());
    }
    assert_eq!(Asset::from_index(0), Some(Asset::N001));
    assert_eq!(Asset::from_index(5), Some(Asset::N006));
    assert_eq!(Asset::from_index(6), None);
}

#[test]
fn station_navigation_cycles() {
    let list = vec![station("s1", "Alpha"), station("s2", "Beta"), station("s3", "Gamma")];
    assert_eq!(find_station(&list, &"Beta".to_string()), Some(1));
    assert_eq!(find_station(&list, &"Delta".to_string()), None);
    assert_eq!(next_station(&list, &"Beta".to_string()), Some(2));
    assert_eq!(next_station(&list, &"Gamma".to_string()), Some(0));
    assert_eq!(prev_station(&list, &"Beta".to_string()), Some(0));
    assert_eq!(prev_station(&list, &"Alpha".to_string()), Some(2));
    assert_eq!(next_station(&list, &"Delta".to_string()), None);
}

#[test]
fn directory_flattens_in_order() {
    let region = Region {
        stations: vec![
            Stations {
                station: vec![station("s1", "Alpha"), station("s2", "Beta")],
                region_id: "r1".to_string(),
                region_name: "North".to_string(),
            },
            Stations {
                station: vec![station("s3", "Gamma")],
                region_id: "r2".to_string(),
                region_name: "South".to_string(),
            },
        ],
    };
    let flat = flatten_stations(region);
    let names: Vec<&str> = flat.iter().map(|s| s.name.as_str()).collect();
    assert_eq!(names, vec!["Alpha", "Beta", "Gamma"]);
}

fn prog(ft: &str, title: &str) -> Prog {
    Prog {
        ft: ft.to_string(),
        to: "20240101120000".to_string(),
        title: title.to_string(),
        info: String::new(),
    }
}

#[test]
fn the_current_programme_is_the_last_started() {
    let progs = vec![
        prog("20240101060000", "Morning"),
        prog("20240101100000", "Midday"),
        prog("20240101180000", "Evening"),
    ];
    assert_eq!(current_prog_index(&progs, 20240101110000), Some(1));
    assert_eq!(current_prog_index(&progs, 20240101050000), None);
    assert_eq!(current_prog_index(&progs, 20240101230000), Some(2));
    // A malformed start time never matches.
    let broken = vec![prog("garbage", "Junk")];
    assert_eq!(current_prog_index(&broken, 20240101110000), None);
}

#[test]
fn options_default_to_nothing_set() {
    let opts = Options::new();
    assert!(!opts.show_dev_list);
    assert!(opts.url.is_none());
    assert!(args_url(&opts).is_none());
    let with_url = Options { url: Some("https://example".to_string()), ..Options::new() };
    assert_eq!(args_url(&with_url), Some("https://example".to_string()));
}

#[test]
fn help_texts_name_the_bindings() {
    assert!(about().contains("adjust volume"));
    assert!(about().contains("next station"));
    assert!(usage().contains("radico"));
    assert!(usage().contains("--proxy"));
}

#[test]
fn errors_carry_their_descriptions() {
    assert_eq!(RadicoError::Forbidden.message(), "Forbidden");
    assert_eq!(RadicoError::ClientError.message(), "Client error");
    assert_eq!(RadicoError::StationError.message(), "Station error");
    assert_eq!(
        RadicoError::OperationInterrupted.message(),
        "Operation was interrupted by the user"
    );
    assert_eq!(RadicoError::NegativeTime(-5).message(), "Local time is negative");
}
