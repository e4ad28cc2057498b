use vstd::prelude::*;

use crate::error::ImportError;
use crate::filename::{parse_filename, parse_name, ParsedName};

verus! {

/// Text placed ahead of the identifier of a combine match.
pub const COMBINE_PREFIX: &'static str = "combines-";

/// Season and tier given by the operator, used for files without an identifier.
#[derive(Debug, Clone)]
pub struct Overrides {
    pub season: Option<u8>,
    pub tier: Option<String>,
}

/// Metadata of one match, as the store reports it and as it is submitted.
#[derive(Debug, Clone)]
pub struct MatchInfo {
    pub match_id: Option<String>,
    pub season: i32,
    pub tier: String,
    pub is_series: bool,
}

/// Metadata of a combine match, as the store reports it: no season, no series.
#[derive(Debug, Clone)]
pub struct CombineMatch {
    pub match_id: Option<String>,
    pub tier: String,
}

/// What the store lookup for one identifier gave.
#[derive(Debug, Clone)]
pub enum LookupResult {
    /// A row of the regular match table.
    Regular(MatchInfo),
    /// A row of the combine match table.
    Combine(CombineMatch),
    /// The table holds no row for the identifier.
    NotFound,
    /// The query failed.
    Failed,
}

/// Mathematical value of a `MatchInfo`.
pub struct MatchView {
    pub match_id: Option<Seq<char>>,
    pub season: i32,
    pub tier: Seq<char>,
    pub is_series: bool,
}

/// The characters of an optional string.
pub open spec fn opt_view(o: Option<String>) -> Option<Seq<char>> {
    match o {
        Some(s) => Some(s@),
        None => None,
    }
}

impl View for MatchInfo {
    type V = MatchView;

    open spec fn view(&self) -> MatchView {
        MatchView {
            match_id: opt_view(self.match_id),
            season: self.season,
            tier: self.tier@,
            is_series: self.is_series,
        }
    }
}

/// Mathematical value of a resolution result.
pub open spec fn result_view(r: Result<MatchInfo, ImportError>) -> Result<MatchView, ImportError> {
    match r {
        Ok(m) => Ok(m@),
        Err(e) => Err(e),
    }
}

/// The identifier that is submitted for a resolved identifier `id`.
pub open spec fn prefixed_id(is_combine: bool, id: Option<Seq<char>>) -> Option<Seq<char>> {
    match id {
        Some(t) => Some(if is_combine { COMBINE_PREFIX@ + t } else { t }),
        None => None,
    }
}

/// Metadata taken from the operator's overrides for a file named `name`.
pub open spec fn from_overrides(
    name: Seq<char>,
    season: Option<u8>,
    tier: Option<Seq<char>>,
) -> Result<MatchView, ImportError> {
    match (season, tier) {
        (None, _) => Err(ImportError::MissingSeason),
        (Some(_), None) => Err(ImportError::MissingTier),
        (Some(s), Some(t)) => Ok(
            MatchView { match_id: Some(name), season: s as i32, tier: t, is_series: false },
        ),
    }
}

/// Metadata resolved from a store lookup for a parsed filename.
pub open spec fn from_lookup(
    parsed: ParsedName,
    season: Option<u8>,
    lookup: LookupResult,
) -> Result<MatchView, ImportError> {
    match lookup {
        LookupResult::NotFound => Err(ImportError::LookupNotFound),
        LookupResult::Failed => Err(ImportError::LookupFailure),
        LookupResult::Regular(row) => Ok(
            MatchView {
                match_id: prefixed_id(parsed.is_combine, opt_view(row.match_id)),
                season: row.season,
                tier: row.tier@,
                is_series: row.is_series,
            },
        ),
        LookupResult::Combine(row) => match season {
            None => Err(ImportError::OverrideRequired),
            Some(s) => Ok(
                MatchView {
                    match_id: prefixed_id(parsed.is_combine, opt_view(row.match_id)),
                    season: s as i32,
                    tier: row.tier@,
                    is_series: false,
                },
            ),
        },
    }
}

/// The first step of resolving a file: a store lookup to make, metadata
/// already known, or a failure.
#[derive(Debug, Clone)]
pub enum Plan {
    /// Look the parsed identifier up in the combine table (`is_combine`) or
    /// the regular one, then call `finish_resolution`.
    Lookup(ParsedName),
    /// No identifier: the overrides give the metadata.
    Ready(MatchInfo),
    /// The file cannot be resolved.
    Failed(ImportError),
}

/// Mathematical value of a `Plan`.
pub enum PlanView {
    Lookup(ParsedName),
    Ready(MatchView),
    Failed(ImportError),
}

impl View for Plan {
    type V = PlanView;

    open spec fn view(&self) -> PlanView {
        match self {
            Plan::Lookup(p) => PlanView::Lookup(*p),
            Plan::Ready(m) => PlanView::Ready(m@),
            Plan::Failed(e) => PlanView::Failed(*e),
        }
    }
}

/// The first step of resolving the file `name` under the given overrides.
pub open spec fn plan_for(name: Seq<char>, season: Option<u8>, tier: Option<Seq<char>>) -> PlanView {
    match parse_name(name) {
        Err(e) => PlanView::Failed(e),
        Ok(Some(p)) => PlanView::Lookup(p),
        Ok(None) => match from_overrides(name, season, tier) {
            Ok(m) => PlanView::Ready(m),
            Err(e) => PlanView::Failed(e),
        },
    }
}

/// Decides how the file `name` is resolved: by a store lookup when the name
/// carries an identifier, else from the overrides.
pub fn plan_resolution(name: &str, overrides: &Overrides) -> (r: Plan)
    ensures
        r@ == plan_for(name@, overrides.season, opt_view(overrides.tier)),
{
    match parse_filename(name) {
        Err(e) => Plan::Failed(e),
        Ok(Some(p)) => Plan::Lookup(p),
        Ok(None) => {
            match resolve_from_overrides(name, overrides) {
                Ok(m) => Plan::Ready(m),
                Err(e) => Plan::Failed(e),
            }
        },
    }
}

/// Metadata for a file without an identifier, from the overrides.
pub fn resolve_from_overrides(name: &str, overrides: &Overrides) -> (r: Result<MatchInfo, ImportError>)
    ensures
        result_view(r) == from_overrides(name@, overrides.season, opt_view(overrides.tier)),
{
    let season = match overrides.season {
        None => {
            return Err(ImportError::MissingSeason);
        },
        Some(s) => s,
    };
    let tier = match &overrides.tier {
        None => {
            return Err(ImportError::MissingTier);
        },
        Some(t) => t.clone(),
    };
    Ok(
        MatchInfo {
            match_id: Some(String::from_str(name)),
            season: season as i32,
            tier,
            is_series: false,
        },
    )
}

/// Completes the resolution of a parsed filename with what the store lookup gave.
pub fn finish_resolution(parsed: &ParsedName, overrides: &Overrides, lookup: LookupResult) -> (r: Result<MatchInfo, ImportError>)
    ensures
        result_view(r) == from_lookup(*parsed, overrides.season, lookup),
{
    match lookup {
        LookupResult::NotFound => Err(ImportError::LookupNotFound),
        LookupResult::Failed => Err(ImportError::LookupFailure),
        LookupResult::Regular(row) => {
            let match_id = with_prefix(parsed.is_combine, row.match_id);
            Ok(MatchInfo { match_id, season: row.season, tier: row.tier, is_series: row.is_series })
        },
        LookupResult::Combine(row) => {
            match overrides.season {
                None => Err(ImportError::OverrideRequired),
                Some(s) => {
                    let match_id = with_prefix(parsed.is_combine, row.match_id);
                    Ok(MatchInfo { match_id, season: s as i32, tier: row.tier, is_series: false })
                },
            }
        },
    }
}

/// Puts the combine prefix ahead of a resolved identifier when `is_combine`.
pub fn with_prefix(is_combine: bool, id: Option<String>) -> (r: Option<String>)
    ensures
        opt_view(r) == prefixed_id(is_combine, opt_view(id)),
{
    match id {
        None => None,
        Some(t) => {
            if is_combine {
                let mut p = String::from_str(COMBINE_PREFIX);
                p.append(t.as_str());
                Some(p)
            } else {
                Some(t)
            }
        },
    }
}

} // verus!
