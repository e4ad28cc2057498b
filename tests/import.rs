use match_import::error::ImportError;
use match_import::filename::{parse_filename, ParsedName};
use match_import::resolve::{
    finish_resolution, plan_resolution, resolve_from_overrides, with_prefix, CombineMatch,
    LookupResult, MatchInfo, Overrides, Plan,
};
use match_import::route::{
    completed_name, ends_with_exec, is_archive, route, skipped_name, strip_suffix_exec, Outcome,
};
use match_import::submit::{build_request, compose_match_id, request_path, submission_outcome};

fn no_overrides() -> Overrides {
    Overrides { season: None, tier: None }
}

fn regular_row(id: &str, season: i32, tier: &str, is_series: bool) -> MatchInfo {
    MatchInfo { match_id: Some(id.to_string()), season, tier: tier.to_string(), is_series }
}

fn parsed(name: &str) -> ParsedName {
    match parse_filename(name) {
        Ok(Some(p)) => p,
        other => panic!("unexpected parse of {}: {:?}", name, other),
    }
}

#[test]
fn series_map_number_is_appended() {
    let name = "match-mid777-2-foo.dem";
    let p = parsed(name);
    assert_eq!(p, ParsedName { match_id: 777, is_combine: false, map_number: Some(2) });
    let info = finish_resolution(&p, &no_overrides(), LookupResult::Regular(regular_row("777", 3, "Elite", true)))
        .unwrap();
    let body = build_request(&info, p.map_number, "/demos/match-mid777-2-foo.dem", None, name).unwrap();
    assert_eq!(body.match_id, "777_2");
    assert_eq!(body.season, 3);
    assert_eq!(body.tier, "Elite");
    assert_eq!(body.path, "/demos/match-mid777-2-foo.dem");
}

#[test]
fn regular_match_keeps_row_identifier() {
    let name = "scrim-mid15-de_dust2.dem";
    let p = parsed(name);
    assert_eq!(p, ParsedName { match_id: 15, is_combine: false, map_number: None });
    let info = finish_resolution(&p, &no_overrides(), LookupResult::Regular(regular_row("15", 7, "Contender", false)))
        .unwrap();
    assert_eq!(info.match_id.as_deref(), Some("15"));
    assert_eq!(info.season, 7);
    assert!(!info.is_series);
    let body = build_request(&info, p.map_number, "/d/x.dem", None, name).unwrap();
    assert_eq!(body.match_id, "15");
}

#[test]
fn regular_match_ignores_season_override() {
    let p = parsed("a-mid9-b.dem");
    let ov = Overrides { season: Some(11), tier: Some("Prospect".to_string()) };
    let info = finish_resolution(&p, &ov, LookupResult::Regular(regular_row("9", 4, "Elite", false))).unwrap();
    assert_eq!(info.season, 4);
    assert_eq!(info.tier, "Elite");
}

#[test]
fn series_without_map_digit_fails() {
    let name = "match-mid777-foo.dem";
    let p = parsed(name);
    assert_eq!(p.map_number, None);
    let info = finish_resolution(&p, &no_overrides(), LookupResult::Regular(regular_row("777", 3, "Elite", true)))
        .unwrap();
    assert_eq!(build_request(&info, p.map_number, "/d", None, name).unwrap_err(), ImportError::SeriesMapMissing);
}

#[test]
fn combine_match_is_prefixed_and_uses_season_override() {
    let name = "combine-mid42-inferno.dem";
    let p = parsed(name);
    assert_eq!(p, ParsedName { match_id: 42, is_combine: true, map_number: None });
    let ov = Overrides { season: Some(6), tier: None };
    let row = CombineMatch { match_id: Some("42".to_string()), tier: "Challenger".to_string() };
    let info = finish_resolution(&p, &ov, LookupResult::Combine(row)).unwrap();
    assert_eq!(info.match_id.as_deref(), Some("combines-42"));
    assert_eq!(info.season, 6);
    assert_eq!(info.tier, "Challenger");
    assert!(!info.is_series);
    let body = build_request(&info, p.map_number, "/d/c.dem", None, name).unwrap();
    assert_eq!(body.match_id, "combines-42");
}

#[test]
fn combine_match_without_season_fails() {
    let p = parsed("x-combine-mid42-1.dem");
    assert!(p.is_combine);
    let row = CombineMatch { match_id: Some("42".to_string()), tier: "Challenger".to_string() };
    let r = finish_resolution(&p, &no_overrides(), LookupResult::Combine(row));
    assert_eq!(r.unwrap_err(), ImportError::OverrideRequired);
}

#[test]
fn lookup_failures_are_reported() {
    let p = parsed("a-mid1-b.dem");
    assert_eq!(finish_resolution(&p, &no_overrides(), LookupResult::NotFound).unwrap_err(), ImportError::LookupNotFound);
    assert_eq!(finish_resolution(&p, &no_overrides(), LookupResult::Failed).unwrap_err(), ImportError::LookupFailure);
}

#[test]
fn missing_identifier_is_not_submitted() {
    let p = parsed("a-mid1-b.dem");
    let row = MatchInfo { match_id: None, season: 1, tier: "T".to_string(), is_series: false };
    let info = finish_resolution(&p, &no_overrides(), LookupResult::Regular(row)).unwrap();
    assert_eq!(build_request(&info, None, "/d", None, "a").unwrap_err(), ImportError::MissingMatchId);
    let empty = regular_row("", 1, "T", false);
    assert_eq!(compose_match_id(&empty, None).unwrap_err(), ImportError::MissingMatchId);
}

#[test]
fn no_marker_uses_overrides() {
    let name = "scrim_on_nuke.dem";
    assert_eq!(parse_filename(name), Ok(None));
    let ov = Overrides { season: Some(12), tier: Some("Premier".to_string()) };
    match plan_resolution(name, &ov) {
        Plan::Ready(info) => {
            assert_eq!(info.match_id.as_deref(), Some(name));
            assert_eq!(info.season, 12);
            assert_eq!(info.tier, "Premier");
            assert!(!info.is_series);
        },
        other => panic!("unexpected plan {:?}", other),
    }
}

#[test]
fn no_marker_without_season_fails() {
    let ov = Overrides { season: None, tier: Some("Premier".to_string()) };
    match plan_resolution("nuke.dem", &ov) {
        Plan::Failed(e) => assert_eq!(e, ImportError::MissingSeason),
        other => panic!("unexpected plan {:?}", other),
    }
    assert_eq!(resolve_from_overrides("nuke.dem", &no_overrides()).unwrap_err(), ImportError::MissingSeason);
}

#[test]
fn no_marker_without_tier_fails() {
    let ov = Overrides { season: Some(3), tier: None };
    match plan_resolution("nuke.dem", &ov) {
        Plan::Failed(e) => assert_eq!(e, ImportError::MissingTier),
        other => panic!("unexpected plan {:?}", other),
    }
}

#[test]
fn marker_plans_a_lookup() {
    match plan_resolution("g-mid31-3.dem", &no_overrides()) {
        Plan::Lookup(p) => assert_eq!(p, ParsedName { match_id: 31, is_combine: false, map_number: Some(3) }),
        other => panic!("unexpected plan {:?}", other),
    }
}

#[test]
fn empty_identifier_is_invalid() {
    assert_eq!(parse_filename("a-mid-b.dem"), Err(ImportError::InvalidMatchId));
    match plan_resolution("a-mid-b.dem", &no_overrides()) {
        Plan::Failed(e) => assert_eq!(e, ImportError::InvalidMatchId),
        other => panic!("unexpected plan {:?}", other),
    }
}

#[test]
fn identifier_too_large_is_invalid() {
    assert_eq!(parse_filename("a-mid9223372036854775808-b.dem"), Err(ImportError::InvalidMatchId));
    assert_eq!(parsed("a-mid9223372036854775807-b.dem").match_id, i64::MAX);
}

#[test]
fn unterminated_marker_is_no_marker() {
    assert_eq!(parse_filename("a-mid12.dem"), Ok(None));
    assert_eq!(parse_filename("-mi12-"), Ok(None));
    assert_eq!(parse_filename(""), Ok(None));
}

#[test]
fn leftmost_marker_wins() {
    assert_eq!(parsed("a-mid12-x-mid34-5.dem"), ParsedName { match_id: 12, is_combine: false, map_number: None });
    assert_eq!(parsed("a-midx-mid34-5.dem").match_id, 34);
    assert_eq!(parsed("-mid007-9").match_id, 7);
    assert_eq!(parsed("-mid007-9").map_number, Some(9));
}

#[test]
fn non_ascii_names_are_read_by_character() {
    assert_eq!(parsed("é-mid5-2ü.dem"), ParsedName { match_id: 5, is_combine: false, map_number: Some(2) });
    assert_eq!(skipped_name("ä.dem.zip"), "ä.dem");
}

#[test]
fn combine_prefix_only_when_tagged() {
    assert_eq!(with_prefix(true, Some("8".to_string())).as_deref(), Some("combines-8"));
    assert_eq!(with_prefix(false, Some("8".to_string())).as_deref(), Some("8"));
    assert_eq!(with_prefix(true, None), None);
}

#[test]
fn skipped_archive_loses_only_zip_suffix() {
    assert_eq!(skipped_name("match-mid1-foo.dem.zip"), "match-mid1-foo.dem");
    assert_eq!(skipped_name("a.zip"), "a");
    assert_eq!(skipped_name("a.zip.dem"), "a.zip.dem");
    assert_eq!(skipped_name("a.dem"), "a.dem");
    let r = route("x.zip", false);
    assert_eq!(r.outcome, Outcome::Skipped);
    assert_eq!(r.name, "x");
}

#[test]
fn completed_name_has_one_dem_suffix() {
    assert_eq!(completed_name("a.dem"), "a.dem");
    assert_eq!(completed_name("a.zip"), "a.dem");
    assert_eq!(completed_name("a.dem.zip"), "a.dem");
    assert_eq!(completed_name("a"), "a.dem");
    assert_eq!(completed_name(""), ".dem");
    let once = completed_name("match-mid2-x.dem.zip");
    assert_eq!(completed_name(&once), once);
    let r = route("y.dem", true);
    assert_eq!(r.outcome, Outcome::Completed);
    assert_eq!(r.name, "y.dem");
}

#[test]
fn status_other_than_200_fails() {
    assert_eq!(submission_outcome(200), Ok(()));
    for status in [201u16, 404, 500, 199, 0] {
        assert_eq!(submission_outcome(status), Err(ImportError::SubmissionRejected(status)));
    }
}

#[test]
fn request_path_uses_root_dir() {
    assert_eq!(request_path("/local/demos/a.dem", Some("/srv/demos"), "a.dem"), "/srv/demos/a.dem");
    assert_eq!(request_path("/local/demos/a.dem", None, "a.dem"), "/local/demos/a.dem");
}

#[test]
fn suffix_helpers() {
    assert!(ends_with_exec("abc.zip", ".zip"));
    assert!(!ends_with_exec("zip", ".zip"));
    assert_eq!(strip_suffix_exec("abc.zip", ".zip"), "abc");
    assert!(is_archive("m.zip"));
    assert!(!is_archive("m.dem"));
    assert_eq!(Outcome::Completed.dir_name(), "_completed");
    assert_eq!(Outcome::Skipped.dir_name(), "_skipped");
}
