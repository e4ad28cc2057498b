use vstd::prelude::*;

use crate::error::ImportError;
use crate::filename::{contains, first_marker, parse_name, ParsedName, COMBINE_TAG};
use crate::resolve::{
    from_lookup, plan_for, CombineMatch, LookupResult, MatchInfo, MatchView, PlanView,
    COMBINE_PREFIX,
};
use crate::route::{completed_name_of, ends_with, skipped_name_of, DEM_EXT, ZIP_EXT};
use crate::submit::{digit_of, submitted_id};

verus! {

/// For a filename with an identifier, no combine tag, and a store row with a
/// non-empty identifier `t`, the submitted identifier is `t`, followed by `_`
/// and the map digit when the row is a series; a series without a map digit
/// is not submitted.
pub proof fn lemma_regular_match_id(name: Seq<char>, season: Option<u8>, tier: Option<Seq<char>>, row: MatchInfo)
    requires
        plan_for(name, season, tier) matches PlanView::Lookup(p) && !p.is_combine,
        row.match_id matches Some(t) && t@.len() > 0,
    ensures
        ({
            let p = plan_for(name, season, tier)->Lookup_0;
            let m = from_lookup(p, season, LookupResult::Regular(row));
            let t = row.match_id->Some_0@;
            &&& m is Ok
            &&& m->Ok_0.season == row.season
            &&& m->Ok_0.tier == row.tier@
            &&& submitted_id(m->Ok_0, p.map_number) == if !row.is_series {
                Ok::<Seq<char>, ImportError>(t)
            } else {
                match p.map_number {
                    Some(d) => Ok::<Seq<char>, ImportError>(t + seq!['_', digit_of(d)]),
                    None => Err(ImportError::SeriesMapMissing),
                }
            }
        }),
{
}

/// For a filename with an identifier and the combine tag, the submitted
/// identifier is the combine prefix followed by the resolved one, the season
/// is the operator's override, and the match is no series; without a season
/// override the file is not resolved.
pub proof fn lemma_combine_match_id(name: Seq<char>, season: Option<u8>, tier: Option<Seq<char>>, row: CombineMatch, map_number: Option<u8>)
    requires
        contains(name, COMBINE_TAG@),
        plan_for(name, season, tier) is Lookup,
        row.match_id matches Some(t) && t@.len() > 0,
    ensures
        ({
            let p = plan_for(name, season, tier)->Lookup_0;
            let m = from_lookup(p, season, LookupResult::Combine(row));
            let t = row.match_id->Some_0@;
            &&& p.is_combine
            &&& season is None ==> m == Err::<MatchView, ImportError>(ImportError::OverrideRequired)
            &&& season matches Some(s) ==> {
                &&& m is Ok
                &&& m->Ok_0.season == s as i32
                &&& !m->Ok_0.is_series
                &&& submitted_id(m->Ok_0, map_number) == Ok::<Seq<char>, ImportError>(COMBINE_PREFIX@ + t)
            }
        }),
{
    let p = plan_for(name, season, tier)->Lookup_0;
    assert(parse_name(name) == Ok::<Option<ParsedName>, ImportError>(Some(p)));
    reveal_strlit("combines-");
}

/// A filename without an identifier segment resolves from the overrides
/// alone: with both, to exactly those values and no series; without either,
/// to a failure, and no lookup is planned.
pub proof fn lemma_no_identifier(name: Seq<char>, season: Option<u8>, tier: Option<Seq<char>>)
    requires
        first_marker(name) is None,
    ensures
        season is Some && tier is Some ==> plan_for(name, season, tier) == PlanView::Ready(
            MatchView {
                match_id: Some(name),
                season: season->Some_0 as i32,
                tier: tier->Some_0,
                is_series: false,
            },
        ),
        season is None ==> plan_for(name, season, tier) == PlanView::Failed(ImportError::MissingSeason),
        season is Some && tier is None ==> plan_for(name, season, tier) == PlanView::Failed(ImportError::MissingTier),
        !(plan_for(name, season, tier) is Lookup),
{
}

/// A skipped archive keeps its name but for the `.zip` suffix.
pub proof fn lemma_skipped_archive_name(name: Seq<char>)
    requires
        ends_with(name, ZIP_EXT@),
    ensures
        skipped_name_of(name) + ZIP_EXT@ == name,
        skipped_name_of(name).len() + 4 == name.len(),
{
    reveal_strlit(".zip");
    assert(skipped_name_of(name) + ZIP_EXT@ =~= name);
}

/// An imported file is filed under a name that ends in `.dem`, that a name
/// ending in `.dem` keeps, and that naming again does not change.
pub proof fn lemma_completed_name(name: Seq<char>)
    ensures
        ends_with(completed_name_of(name), DEM_EXT@),
        ends_with(name, DEM_EXT@) ==> completed_name_of(name) == name,
        completed_name_of(completed_name_of(name)) == completed_name_of(name),
{
    reveal_strlit(".dem");
    reveal_strlit(".zip");
    let c = completed_name_of(name);
    let stem = c.subrange(0, c.len() - 4);
    assert(c.subrange(c.len() - 4, c.len() as int) =~= DEM_EXT@);
    assert(stem =~= crate::route::strip_suffix(crate::route::strip_suffix(name, ZIP_EXT@), DEM_EXT@));
    assert(c[c.len() - 1] == 'm');
    assert(!ends_with(c, ZIP_EXT@)) by {
        if ends_with(c, ZIP_EXT@) {
            assert(c.subrange(c.len() - 4, c.len() as int)[3] == 'p');
        }
    }
    if ends_with(name, DEM_EXT@) {
        assert(!ends_with(name, ZIP_EXT@));
        assert(completed_name_of(name) =~= name);
    }
    assert(completed_name_of(c) =~= c);
}

} // verus!
