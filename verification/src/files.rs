use vstd::prelude::*;
use rand::seq::SliceRandom;
use std::str::FromStr;
use vstd::string::StringExecFns;
use crate::errors::ApiError;
use crate::text::{chars_of, string_from_chars, sub_chars};
use crate::paths::{path_debug, path_debug_text, path_starts_with, path_starts_with_spec};
use crate::status::{FORBIDDEN, NOT_FOUND, UNPROCESSABLE_ENTITY};

verus! {

/// The error is a 403 with its reason phrase, answered as JSON.
pub open spec fn is_forbidden(e: ApiError) -> bool {
    e.status_code == FORBIDDEN && e.messages() == seq!["Forbidden"@] && !e.with_ui
}

/// The error is a 404 with its reason phrase, answered as JSON.
pub open spec fn is_not_found(e: ApiError) -> bool {
    e.status_code == NOT_FOUND && e.messages() == seq!["Not Found"@] && !e.with_ui
}

/// The access rule for served files: a path in the public folder is open to
/// everyone; any other path needs a token, and then the token's own verdict
/// on the path decides.
pub open spec fn access_rule(
    is_public: bool,
    jwt_verdict: Option<Result<(), ApiError>>,
    r: Result<(), ApiError>,
) -> bool {
    if is_public {
        r is Ok
    } else {
        match jwt_verdict {
            None => r matches Err(e) && is_forbidden(e),
            Some(v) => r == v,
        }
    }
}

/// The access decision, given whether the path lies in the public folder and
/// the verdict of the request's token (none without a token).
pub fn access_decision(is_public: bool, jwt_verdict: Option<Result<(), ApiError>>) -> (r: Result<
    (),
    ApiError,
>)
    ensures
        access_rule(is_public, jwt_verdict, r),
{
    if is_public {
        Ok(())
    } else {
        match jwt_verdict {
            Some(v) => v,
            None => Err(ApiError::forbidden()),
        }
    }
}

/// Whether the file at `path` may be served: the access decision with the
/// path's place (inside `public_files_root`, by whole components) and the
/// token's verdict.
pub fn attempt_access(
    path: &str,
    public_files_root: &str,
    jwt_verdict: Option<Result<(), ApiError>>,
) -> (r: Result<(), ApiError>)
    ensures
        access_rule(path_starts_with_spec(path@, public_files_root@), jwt_verdict, r),
{
    let is_public = path_starts_with(path, public_files_root);
    access_decision(is_public, jwt_verdict)
}

/// The message of a request for a file that is a directory, or the
/// reverse.
pub open spec fn not_a_message(kind: Seq<char>, path: Seq<char>, what: Seq<char>) -> Seq<char> {
    "requested "@ + kind + " at "@ + path_debug_text(path) + " is NOT a "@ + what
}

fn wrong_kind_error(kind: &str, path: &str, what: &str) -> (r: ApiError)
    ensures
        r.status_code == UNPROCESSABLE_ENTITY,
        r.messages() == seq!["Unprocessable Entity"@, not_a_message(kind@, path@, what@)],
        !r.with_ui,
{
    let msg = "requested ".to_owned().concat(kind).concat(" at ").concat(path_debug(path).as_str()).concat(
        " is NOT a ",
    ).concat(what);
    ApiError::unprocessable_entity().append_error(msg)
}

/// Whether a file may be read at `path`: not when it is a directory (422,
/// with a second message that names the path), nor when nothing is there
/// (404).
pub fn assert_file_access(path: &str, is_dir: bool, exists: bool) -> (r: Result<(), ApiError>)
    ensures
        is_dir ==> (r matches Err(e) && e.status_code == UNPROCESSABLE_ENTITY && e.messages()
            == seq!["Unprocessable Entity"@, not_a_message("file"@, path@, "file"@)] && !e.with_ui),
        !is_dir && !exists ==> (r matches Err(e) && is_not_found(e)),
        !is_dir && exists ==> r is Ok,
{
    if is_dir {
        Err(wrong_kind_error("file", path, "file"))
    } else if !exists {
        Err(ApiError::not_found())
    } else {
        Ok(())
    }
}

/// Whether a directory may be listed at `path`: not when it is a file (422,
/// with a second message that names the path), nor when nothing is there
/// (404).
pub fn assert_directory_access(path: &str, is_file: bool, exists: bool) -> (r: Result<
    (),
    ApiError,
>)
    ensures
        is_file ==> (r matches Err(e) && e.status_code == UNPROCESSABLE_ENTITY && e.messages()
            == seq!["Unprocessable Entity"@, not_a_message("directory"@, path@, "directory"@)]
            && !e.with_ui),
        !is_file && !exists ==> (r matches Err(e) && is_not_found(e)),
        !is_file && exists ==> r is Ok,
{
    if is_file {
        Err(wrong_kind_error("directory", path, "directory"))
    } else if !exists {
        Err(ApiError::not_found())
    } else {
        Ok(())
    }
}

/// The media types that `mime_guess` guesses for a path, as type and
/// subtype.
pub uninterp spec fn mime_guesses_of(path: Seq<char>) -> Seq<(Seq<char>, Seq<char>)>;

/// Calls `mime_guess::from_path(path).iter()` and keeps each guess's type
/// and subtype.
/// Claimed: the guesses, in order, named by `mime_guesses_of` (the crate
/// looks the extension up in a fixed table).
#[verifier::external_body]
pub(crate) fn mime_guesses(path: &str) -> (r: Vec<(String, String)>)
    ensures
        r@.len() == mime_guesses_of(path@).len(),
        forall|k: int|
            0 <= k < r@.len() ==> (#[trigger] r@[k]).0@ == mime_guesses_of(path@)[k].0 && r@[k].1@
                == mime_guesses_of(path@)[k].1,
{
    let mut out = Vec::new();
    for m in mime_guess::from_path(path).iter() {
        out.push((m.type_().as_str().to_string(), m.subtype().as_str().to_string()));
    }
    out
}

/// A media type as `mime` parses it, as type and subtype; none when the
/// text is not one.
pub uninterp spec fn parsed_mime(s: Seq<char>) -> Option<(Seq<char>, Seq<char>)>;

/// Calls `mime::Mime::from_str`.
/// Claimed: the parsed type and subtype, named by `parsed_mime`; `None` for
/// a parse error.
#[verifier::external_body]
pub(crate) fn parse_mime(s: &str) -> (r: Option<(String, String)>)
    ensures
        match r {
            Some((t, st)) => parsed_mime(s@) == Some((t@, st@)),
            None => parsed_mime(s@) is None,
        },
{
    match mime_guess::Mime::from_str(s) {
        Ok(m) => Some((m.type_().as_str().to_string(), m.subtype().as_str().to_string())),
        Err(_) => None,
    }
}

/// A wanted part of a media type accepts `part` when it is empty, `*`, or
/// equal to it.
pub open spec fn part_accepts(wanted: Seq<char>, part: Seq<char>) -> bool {
    wanted.len() == 0 || wanted == "*"@ || wanted == part
}

/// One guessed media type matches the wanted one (any, without one).
pub open spec fn mime_item_matches(
    item: (Seq<char>, Seq<char>),
    wanted: Option<(Seq<char>, Seq<char>)>,
) -> bool {
    match wanted {
        None => true,
        Some((t, st)) => part_accepts(t, item.0) && part_accepts(st, item.1),
    }
}

/// Some guessed media type matches the wanted one; a file with no guess
/// matches nothing.
pub open spec fn file_type_matches(
    guesses: Seq<(Seq<char>, Seq<char>)>,
    wanted: Option<(Seq<char>, Seq<char>)>,
) -> bool {
    exists|k: int| 0 <= k < guesses.len() && mime_item_matches(#[trigger] guesses[k], wanted)
}

/// The media types of a list as text pairs.
pub open spec fn mime_views(v: Seq<(String, String)>) -> Seq<(Seq<char>, Seq<char>)> {
    v.map_values(|p: (String, String)| (p.0@, p.1@))
}

/// The view of an optional media type.
pub open spec fn wanted_view(w: Option<(String, String)>) -> Option<(Seq<char>, Seq<char>)> {
    match w {
        Some((t, st)) => Some((t@, st@)),
        None => None,
    }
}

fn part_accepts_exec(wanted: &String, part: &String) -> (r: bool)
    ensures
        r == part_accepts(wanted@, part@),
{
    let star = "*".to_owned();
    wanted.as_str().is_empty() || *wanted == star || *wanted == *part
}

/// Whether some of the guessed media types matches the wanted one.
pub fn match_file_type(guesses: &Vec<(String, String)>, wanted: &Option<(String, String)>) -> (r:
    bool)
    ensures
        r == file_type_matches(mime_views(guesses@), wanted_view(*wanted)),
        wanted_view(*wanted) == Some(("*"@, "*"@)) ==> (r <==> guesses@.len() > 0),
{
    proof {
        any_guess_matches_the_full_wildcard(mime_views(guesses@));
    }
    let ghost g = mime_views(guesses@);
    let mut i: usize = 0;
    while i < guesses.len()
        invariant
            i <= guesses.len(),
            g == mime_views(guesses@),
            forall|k: int| 0 <= k < i ==> !mime_item_matches(#[trigger] g[k], wanted_view(*wanted)),
        decreases guesses.len() - i,
    {
        let item = &guesses[i];
        assert(g[i as int] == (item.0@, item.1@));
        let ok = match wanted {
            None => true,
            Some((t, st)) => part_accepts_exec(t, &item.0) && part_accepts_exec(st, &item.1),
        };
        if ok {
            return true;
        }
        i = i + 1;
    }
    false
}

/// Whether the file at `path` has a media type that matches the wanted one.
pub fn file_matches_mime(path: &str, wanted: &Option<(String, String)>) -> (r: bool)
    ensures
        r == file_type_matches(mime_guesses_of(path@), wanted_view(*wanted)),
{
    let guesses = mime_guesses(path);
    assert(mime_views(guesses@) =~= mime_guesses_of(path@));
    match_file_type(&guesses, wanted)
}

/// The wanted media type of a request: none when it names none; a 400
/// `file_type is malformed` when it cannot be parsed.
pub fn wanted_mime(mime: Option<String>) -> (r: Result<Option<(String, String)>, ApiError>)
    ensures
        match mime {
            None => r == Ok::<Option<(String, String)>, ApiError>(None),
            Some(m) => match parsed_mime(m@) {
                Some(p) => r matches Ok(Some(w)) && wanted_view(Some(w)) == Some(p),
                None => r matches Err(e) && e.status_code == crate::status::BAD_REQUEST
                    && e.messages() == seq!["file_type is malformed"@] && !e.with_ui,
            },
        },
{
    match mime {
        None => Ok(None),
        Some(m) => match parse_mime(m.as_str()) {
            Some(p) => Ok(Some(p)),
            None => {
                let mut errors: Vec<String> = Vec::new();
                errors.push("file_type is malformed".to_owned());
                let e = ApiError::bad_request(errors);
                assert(e.messages() =~= seq!["file_type is malformed"@]);
                Err(e)
            },
        },
    }
}

/// What the search for a random file does with one directory entry.
#[derive(Debug, Clone, Copy, PartialEq, Eq)]
pub enum WalkStep {
    /// Leave it out.
    Skip,
    /// Keep it as a candidate.
    Collect,
    /// Search the directory too.
    Descend,
}

/// The step for one entry of the search for a random file: entries that may
/// not be accessed are left out; a file is kept when its media type matches
/// the wanted one; a directory is searched.
pub fn walk_step(
    path: &str,
    is_file: bool,
    access: Result<(), ApiError>,
    wanted: &Option<(String, String)>,
) -> (r: WalkStep)
    ensures
        access is Err ==> r == WalkStep::Skip,
        access is Ok && is_file ==> r == (if file_type_matches(
            mime_guesses_of(path@),
            wanted_view(*wanted),
        ) {
            WalkStep::Collect
        } else {
            WalkStep::Skip
        }),
        access is Ok && !is_file ==> r == WalkStep::Descend,
{
    if access.is_err() {
        WalkStep::Skip
    } else if is_file {
        if file_matches_mime(path, wanted) {
            WalkStep::Collect
        } else {
            WalkStep::Skip
        }
    } else {
        WalkStep::Descend
    }
}

/// Calls `rand::seq::SliceRandom::shuffle` with `rand::thread_rng()`.
/// Claimed: the same paths in some order (a shuffle permutes the slice);
/// which order is chance.
#[verifier::external_body]
fn shuffle_paths(files: &mut Vec<String>)
    ensures
        final(files)@.to_multiset() == old(files)@.to_multiset(),
{
    files.shuffle(&mut rand::thread_rng());
}

/// One of the files, picked at random; 404 when there is none.
pub fn pick_random_file(files: Vec<String>) -> (r: Result<String, ApiError>)
    ensures
        files@.len() == 0 ==> (r matches Err(e) && is_not_found(e)),
        files@.len() > 0 ==> (r matches Ok(f) && files@.contains(f)),
{
    let mut shuffled = files;
    shuffle_paths(&mut shuffled);
    proof {
        broadcast use vstd::seq_lib::to_multiset_len;
        assert(shuffled@.to_multiset().len() == files@.to_multiset().len());
    }
    if shuffled.len() == 0 {
        Err(ApiError::not_found())
    } else {
        let f = shuffled[0].clone();
        proof {
            broadcast use vstd::seq_lib::to_multiset_contains;
            assert(shuffled@.contains(shuffled@[0]));
            assert(shuffled@.to_multiset().count(shuffled@[0]) > 0);
            assert(files@.to_multiset().count(shuffled@[0]) > 0);
        }
        Ok(f)
    }
}


/// The view of a file that the random pick redirects to.
#[derive(Debug, Clone, Copy, PartialEq, Eq)]
pub enum FileView {
    /// `/api/v1/files/preview/<path>`: a thumbnail.
    Preview,
    /// `/api/v1/files/raw/<path>`: the file itself.
    Raw,
}

/// The view the random pick redirects to: the preview when it is asked for,
/// else the raw file.
pub fn random_file_view(preview: Option<bool>) -> (r: FileView)
    ensures
        r == (if preview == Some(true) {
            FileView::Preview
        } else {
            FileView::Raw
        }),
{
    match preview {
        Some(true) => FileView::Preview,
        _ => FileView::Raw,
    }
}

/// The part of a picked file's path that follows the served folder's path;
/// none when the file's path does not begin with it.
pub fn path_below_root(file: &str, root: &str) -> (r: Option<String>)
    ensures
        root@.is_prefix_of(file@) ==> (r matches Some(s) && s@ == file@.skip(root@.len() as int)),
        !root@.is_prefix_of(file@) ==> r is None,
{
    let f = chars_of(file);
    let b = chars_of(root);
    if b.len() > f.len() {
        return None;
    }
    let mut i: usize = 0;
    while i < b.len()
        invariant
            b.len() <= f.len(),
            f@ == file@,
            b@ == root@,
            i <= b.len(),
            forall|k: int| 0 <= k < i ==> f@[k] == b@[k],
        decreases b.len() - i,
    {
        if f[i] != b[i] {
            return None;
        }
        i = i + 1;
    }
    assert(root@.is_prefix_of(file@)) by {
        assert(file@.subrange(0, root@.len() as int) =~= root@);
    }
    let rest = sub_chars(f.as_slice(), b.len(), f.len());
    assert(rest@ =~= file@.skip(root@.len() as int));
    Some(string_from_chars(rest.as_slice()))
}


/// Wildcards accept every media type: `*/*` (or empty parts) matches any
/// guess, as does no wanted type at all.
pub proof fn wildcard_type_matches_anything(item: (Seq<char>, Seq<char>))
    ensures
        mime_item_matches(item, Some(("*"@, "*"@))),
        mime_item_matches(item, Some((Seq::<char>::empty(), Seq::<char>::empty()))),
        mime_item_matches(item, None),
{
}

/// Widening a wanted part to `*` keeps every match, in the type position as
/// in the subtype position.
pub proof fn widening_to_a_wildcard_keeps_matches(
    item: (Seq<char>, Seq<char>),
    t: Seq<char>,
    st: Seq<char>,
)
    requires
        mime_item_matches(item, Some((t, st))),
    ensures
        mime_item_matches(item, Some(("*"@, st))),
        mime_item_matches(item, Some((t, "*"@))),
{
}

/// A wanted part that is neither empty nor `*` matches only itself.
pub proof fn exact_parts_match_only_themselves(
    item: (Seq<char>, Seq<char>),
    t: Seq<char>,
    st: Seq<char>,
)
    requires
        mime_item_matches(item, Some((t, st))),
    ensures
        t.len() > 0 && t != "*"@ ==> item.0 == t,
        st.len() > 0 && st != "*"@ ==> item.1 == st,
{
}

/// A file matches `*/*` exactly when it has some guessed media type.
pub proof fn any_guess_matches_the_full_wildcard(guesses: Seq<(Seq<char>, Seq<char>)>)
    ensures
        file_type_matches(guesses, Some(("*"@, "*"@))) <==> guesses.len() > 0,
        file_type_matches(guesses, None) <==> guesses.len() > 0,
{
    if guesses.len() > 0 {
        wildcard_type_matches_anything(guesses[0]);
    }
}


/// A file in the public folder is open to everyone, whatever the token says;
/// outside it, a request without a token is refused with a 403 and one with
/// a token gets the token's own verdict.
pub proof fn public_files_are_open(
    is_public: bool,
    jwt_verdict: Option<Result<(), ApiError>>,
    r: Result<(), ApiError>,
)
    requires
        access_rule(is_public, jwt_verdict, r),
    ensures
        is_public ==> r is Ok,
        !is_public && jwt_verdict is None ==> (r matches Err(e) && e.status_code == FORBIDDEN),
        !is_public ==> (jwt_verdict matches Some(v) ==> r == v),
{
}

} // verus!
