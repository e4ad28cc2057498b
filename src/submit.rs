use vstd::prelude::*;

use crate::error::ImportError;
use crate::filename::{digit_value, is_digit};
use crate::resolve::{MatchInfo, MatchView};

verus! {

/// Path on the service where a match is added.
pub const ADD_MATCH_PATH: &'static str = "/api/add-match";

/// The one status that counts as a successful submission.
pub const STATUS_OK: u16 = 200;

/// Body of the request that submits one file.
#[derive(Debug, Clone)]
pub struct RequestBody {
    pub path: String,
    pub match_id: String,
    pub season: i32,
    pub tier: String,
}

/// The decimal digit that writes `d`.
pub open spec fn digit_of(d: u8) -> char {
    ((d + 48) as u8) as char
}

/// The identifier submitted for resolved metadata `m`, where `map_number`
/// is the digit that follows the filename's identifier segment.
pub open spec fn submitted_id(m: MatchView, map_number: Option<u8>) -> Result<Seq<char>, ImportError> {
    match m.match_id {
        None => Err(ImportError::MissingMatchId),
        Some(id) => if id.len() == 0 {
            Err(ImportError::MissingMatchId)
        } else if m.is_series {
            match map_number {
                None => Err(ImportError::SeriesMapMissing),
                Some(d) => Ok(id + seq!['_', digit_of(d)]),
            }
        } else {
            Ok(id)
        },
    }
}

/// The path submitted for the file `name` found at `file_path`.
pub open spec fn submitted_path(file_path: Seq<char>, root_dir: Option<Seq<char>>, name: Seq<char>) -> Seq<char> {
    match root_dir {
        Some(root) => root + seq!['/'] + name,
        None => file_path,
    }
}

/// Relies on `String::push`: appends one character.
#[verifier::external_body]
fn push_char(s: &mut String, c: char)
    ensures
        final(s)@ == old(s)@.push(c),
{
    s.push(c);
}

/// Renders a single decimal digit.
pub fn digit_char(d: u8) -> (c: char)
    requires
        d < 10,
    ensures
        c == digit_of(d),
        is_digit(c),
        digit_value(c) == d,
{
    (d + 48u8) as char
}

/// Composes the identifier to submit: the resolved one, followed by `_` and
/// the map number when the match is a series.
pub fn compose_match_id(info: &MatchInfo, map_number: Option<u8>) -> (r: Result<String, ImportError>)
    requires
        map_number matches Some(d) ==> d < 10,
    ensures
        match r {
            Ok(s) => submitted_id(info@, map_number) == Ok::<Seq<char>, ImportError>(s@),
            Err(e) => submitted_id(info@, map_number) == Err::<Seq<char>, ImportError>(e),
        },
{
    let id = match &info.match_id {
        None => {
            return Err(ImportError::MissingMatchId);
        },
        Some(id) => id,
    };
    if id.as_str().unicode_len() == 0 {
        return Err(ImportError::MissingMatchId);
    }
    let mut r = id.clone();
    if info.is_series {
        match map_number {
            None => {
                return Err(ImportError::SeriesMapMissing);
            },
            Some(d) => {
                push_char(&mut r, '_');
                push_char(&mut r, digit_char(d));
            },
        }
    }
    proof {
        if info.is_series {
            assert(r@ == id@ + seq!['_', digit_of(map_number->Some_0)]);
        }
    }
    Ok(r)
}

/// The path to submit: `root_dir/name` when a root directory is configured,
/// else the local path.
pub fn request_path(file_path: &str, root_dir: Option<&str>, name: &str) -> (r: String)
    ensures
        r@ == submitted_path(file_path@, opt_str_view(root_dir), name@),
{
    match root_dir {
        Some(root) => {
            let mut r = String::from_str(root);
            push_char(&mut r, '/');
            r.append(name);
            r
        },
        None => String::from_str(file_path),
    }
}

/// The characters of an optional string slice.
pub open spec fn opt_str_view(o: Option<&str>) -> Option<Seq<char>> {
    match o {
        Some(s) => Some(s@),
        None => None,
    }
}

/// Builds the request body that submits the file `name`.
pub fn build_request(
    info: &MatchInfo,
    map_number: Option<u8>,
    file_path: &str,
    root_dir: Option<&str>,
    name: &str,
) -> (r: Result<RequestBody, ImportError>)
    requires
        map_number matches Some(d) ==> d < 10,
    ensures
        match r {
            Ok(b) => {
                &&& submitted_id(info@, map_number) == Ok::<Seq<char>, ImportError>(b.match_id@)
                &&& b.path@ == submitted_path(file_path@, opt_str_view(root_dir), name@)
                &&& b.season == info.season
                &&& b.tier@ == info.tier@
            },
            Err(e) => submitted_id(info@, map_number) == Err::<Seq<char>, ImportError>(e),
        },
{
    let match_id = compose_match_id(info, map_number)?;
    let path = request_path(file_path, root_dir, name);
    Ok(RequestBody { path, match_id, season: info.season, tier: info.tier.clone() })
}

/// Whether the service accepted a submission: only status 200 does.
pub fn submission_outcome(status: u16) -> (r: Result<(), ImportError>)
    ensures
        status == STATUS_OK <==> r is Ok,
        status != STATUS_OK ==> r == Err::<(), ImportError>(ImportError::SubmissionRejected(status)),
{
    if status == STATUS_OK {
        Ok(())
    } else {
        Err(ImportError::SubmissionRejected(status))
    }
}

} // verus!
