use vstd::prelude::*;
use crate::paths::{JoinedPath, PathModel, Root, RootModel};
use crate::platform::Platform;
use crate::text::{has_prefix, same_text, skip_chars, starts_with};

verus! {

/// The name of the portable home directory inside the user's home directory.
pub open spec fn spec_default_home_dir() -> Seq<char> {
    ".lazyvim"@
}

/// The user's home directory could not be determined.
#[derive(Clone, Copy, Debug, PartialEq, Eq, Structural)]
pub enum HomeError {
    Unresolved,
}

/// Which environment variables give the user's home directory.
#[derive(Clone, Copy, Debug, PartialEq, Eq, Structural)]
pub enum HomeSource {
    /// `HOME`.
    Home,
    /// `USERPROFILE`.
    UserProfile,
    /// `HOMEDRIVE` immediately followed by `HOMEPATH`.
    DriveAndPath,
}

/// The source of the user's home directory, given which of `HOME`,
/// `USERPROFILE`, `HOMEDRIVE` and `HOMEPATH` are set.
pub open spec fn spec_user_home_dir(home: bool, profile: bool, drive: bool, path: bool) -> Result<
    HomeSource,
    HomeError,
> {
    if home {
        Ok(HomeSource::Home)
    } else if profile {
        Ok(HomeSource::UserProfile)
    } else if drive && path {
        Ok(HomeSource::DriveAndPath)
    } else {
        Err(HomeError::Unresolved)
    }
}

/// Where the user's home directory comes from: `HOME` if it is set, else
/// `USERPROFILE`, else `HOMEDRIVE` followed by `HOMEPATH` when both are set;
/// with none of these the home directory cannot be resolved. Each argument
/// says whether that variable is set.
pub fn user_home_dir(home: bool, profile: bool, drive: bool, path: bool) -> (r: Result<
    HomeSource,
    HomeError,
>)
    ensures
        r == spec_user_home_dir(home, profile, drive, path),
{
    if home {
        Ok(HomeSource::Home)
    } else if profile {
        Ok(HomeSource::UserProfile)
    } else if drive && path {
        Ok(HomeSource::DriveAndPath)
    } else {
        Err(HomeError::Unresolved)
    }
}

/// The path that a home setting stands for, with a leading `~` read as the
/// user's home directory.
pub open spec fn spec_expand_home(text: Seq<char>, user_home_known: bool, platform: Platform) -> Result<
    PathModel,
    HomeError,
> {
    let user_home = PathModel::at(RootModel::UserHome);
    if text == "~"@ {
        if user_home_known {
            Ok(user_home)
        } else {
            Err(HomeError::Unresolved)
        }
    } else if has_prefix(text, "~/"@) || (platform.spec_is_windows() && has_prefix(text, "~\\"@)) {
        if user_home_known {
            Ok(user_home.child(text.skip(2)))
        } else {
            Err(HomeError::Unresolved)
        }
    } else {
        Ok(PathModel::at(RootModel::Text(text)))
    }
}

/// Whether a result holds the path `expected` (or the same error).
pub open spec fn path_result_is(r: Result<JoinedPath, HomeError>, expected: Result<PathModel, HomeError>) -> bool {
    match (r, expected) {
        (Ok(p), Ok(q)) => p@ == q,
        (Err(e), Err(f)) => e == f,
        _ => false,
    }
}

/// Expands a leading `~` in a home setting: `~` alone is the user's home
/// directory, `~/rest` (and, on Windows, `~\rest`) is `rest` joined to it,
/// and any other text is taken as it stands. The user's home directory is
/// needed only in the first two cases; `user_home_known` says whether it
/// could be resolved.
pub fn expand_home(text: &str, user_home_known: bool, platform: Platform) -> (r: Result<JoinedPath, HomeError>)
    ensures
        path_result_is(r, spec_expand_home(text@, user_home_known, platform)),
{
    let owned = String::from_str(text);
    if same_text(&owned, "~") {
        if user_home_known {
            return Ok(JoinedPath::from_root(Root::UserHome));
        } else {
            return Err(HomeError::Unresolved);
        }
    }
    if starts_with(text, "~/") || (platform.is_windows() && starts_with(text, "~\\")) {
        proof {
            reveal_strlit("~/");
            reveal_strlit("~\\");
        }
        if user_home_known {
            let rest = skip_chars(text, 2);
            return Ok(JoinedPath::from_root(Root::UserHome).join(rest.as_str()));
        } else {
            return Err(HomeError::Unresolved);
        }
    }
    Ok(JoinedPath::from_root(Root::Text(owned)))
}

/// The portable home: the `--home` option if given, else `LAZYVIM_HOME` if
/// set (each with `~` expanded), else `.lazyvim` in the user's home directory.
pub open spec fn spec_resolve_home(
    option: Option<Seq<char>>,
    env: Option<Seq<char>>,
    user_home_known: bool,
    platform: Platform,
) -> Result<PathModel, HomeError> {
    match option {
        Some(text) => spec_expand_home(text, user_home_known, platform),
        None => match env {
            Some(text) => spec_expand_home(text, user_home_known, platform),
            None => if user_home_known {
                Ok(PathModel::at(RootModel::UserHome).child(spec_default_home_dir()))
            } else {
                Err(HomeError::Unresolved)
            },
        },
    }
}

/// Resolves the portable home directory: the `--home` value wins over
/// `LAZYVIM_HOME`, which wins over `~/.lazyvim`.
pub fn resolve_home(
    option: Option<&str>,
    env: Option<&str>,
    user_home_known: bool,
    platform: Platform,
) -> (r: Result<JoinedPath, HomeError>)
    ensures
        path_result_is(
            r,
            spec_resolve_home(
                match option {
                    Some(s) => Some(s@),
                    None => None,
                },
                match env {
                    Some(s) => Some(s@),
                    None => None,
                },
                user_home_known,
                platform,
            ),
        ),
{
    match option {
        Some(text) => expand_home(text, user_home_known, platform),
        None => match env {
            Some(text) => expand_home(text, user_home_known, platform),
            None => if user_home_known {
                Ok(JoinedPath::from_root(Root::UserHome).join(".lazyvim"))
            } else {
                Err(HomeError::Unresolved)
            },
        },
    }
}

/// The `--home` option takes precedence over `LAZYVIM_HOME`, which takes
/// precedence over the default; a setting that does not start with `~` is
/// used exactly as given, whether or not the user's home is known.
pub proof fn lemma_home_precedence(
    option: Option<Seq<char>>,
    env: Option<Seq<char>>,
    user_home_known: bool,
    platform: Platform,
)
    ensures
        option matches Some(text) ==> spec_resolve_home(option, env, user_home_known, platform)
            == spec_resolve_home(Some(text), None, user_home_known, platform),
        option is None ==> spec_resolve_home(option, env, user_home_known, platform)
            == spec_resolve_home(None, env, user_home_known, platform),
        option is None && env is None && user_home_known ==> spec_resolve_home(
            option,
            env,
            user_home_known,
            platform,
        ) == Ok::<PathModel, HomeError>(
            PathModel::at(RootModel::UserHome).child(spec_default_home_dir()),
        ),
{
}

/// A home setting whose first character is not `~` names itself.
pub proof fn lemma_plain_setting_is_verbatim(text: Seq<char>, user_home_known: bool, platform: Platform)
    requires
        text.len() == 0 || text[0] != '~',
    ensures
        spec_expand_home(text, user_home_known, platform) == Ok::<PathModel, HomeError>(
            PathModel::at(RootModel::Text(text)),
        ),
{
    reveal_strlit("~");
    reveal_strlit("~/");
    reveal_strlit("~\\");
    if text.len() > 0 {
        if has_prefix(text, "~/"@) {
            assert(text.subrange(0, 2)[0] == text[0]);
        }
        if has_prefix(text, "~\\"@) {
            assert(text.subrange(0, 2)[0] == text[0]);
        }
        if text == "~"@ {
            assert(text[0] == '~');
        }
    } else {
        assert(text != "~"@);
    }
}

/// Expanding a home setting a second time changes nothing. A setting that
/// expands to literal text expands to the same path again; a path under the
/// user's home, once turned into text that does not start with `~` (as when
/// the user's home itself does not), is taken verbatim by
/// [`lemma_plain_setting_is_verbatim`].
pub proof fn lemma_expand_home_idempotent(text: Seq<char>, user_home_known: bool, platform: Platform)
    ensures
        spec_expand_home(text, user_home_known, platform) matches Ok(q) ==> (q.root matches RootModel::Text(
            t,
        ) ==> spec_expand_home(t, user_home_known, platform) == Ok::<PathModel, HomeError>(q)),
{
    if let Ok(q) = spec_expand_home(text, user_home_known, platform) {
        if let RootModel::Text(t) = q.root {
            assert(t == text);
        }
    }
}

/// The message of a home error.
pub open spec fn spec_home_error_message(error: HomeError) -> Seq<char> {
    match error {
        HomeError::Unresolved => "could not resolve user home directory"@,
    }
}

/// What the launcher reports when the user's home directory is needed but
/// cannot be resolved.
pub fn home_error_message(error: HomeError) -> (m: &'static str)
    ensures
        m@ == spec_home_error_message(error),
{
    match error {
        HomeError::Unresolved => "could not resolve user home directory",
    }
}

/// On every platform, `~` alone is the user's home and `~/rest` is `rest`
/// under the user's home, when the user's home is known; when it is not,
/// both are errors.
pub proof fn lemma_tilde_slash_expands_everywhere(rest: Seq<char>, platform: Platform)
    ensures
        spec_expand_home("~/"@ + rest, true, platform) == Ok::<PathModel, HomeError>(
            PathModel::at(RootModel::UserHome).child(rest),
        ),
        spec_expand_home("~/"@ + rest, false, platform) == Err::<PathModel, HomeError>(HomeError::Unresolved),
        spec_expand_home("~"@, true, platform) == Ok::<PathModel, HomeError>(PathModel::at(RootModel::UserHome)),
{
    reveal_strlit("~/");
    reveal_strlit("~");
    let text = "~/"@ + rest;
    assert(text.subrange(0, 2) =~= "~/"@);
    assert(text.skip(2) =~= rest);
    assert(text.len() != 1);
    assert(text != "~"@);
}

/// `HOME` wins whenever it is set, `USERPROFILE` whenever `HOME` is not,
/// and `HOMEDRIVE` with `HOMEPATH` only when neither is set and both of them
/// are; the home is unresolved exactly when none of these applies.
pub proof fn lemma_user_home_precedence(home: bool, profile: bool, drive: bool, path: bool)
    ensures
        home ==> spec_user_home_dir(home, profile, drive, path) == Ok::<HomeSource, HomeError>(HomeSource::Home),
        !home && profile ==> spec_user_home_dir(home, profile, drive, path) == Ok::<HomeSource, HomeError>(
            HomeSource::UserProfile,
        ),
        spec_user_home_dir(home, profile, drive, path) == Ok::<HomeSource, HomeError>(HomeSource::DriveAndPath)
            <==> !home && !profile && drive && path,
        spec_user_home_dir(home, profile, drive, path) is Err <==> !home && !profile && !(drive && path),
{
}

/// `~\rest` is `rest` under the user's home on Windows, and literal text on
/// every other platform.
pub proof fn lemma_tilde_backslash_only_on_windows(rest: Seq<char>, platform: Platform)
    ensures
        platform.spec_is_windows() ==> spec_expand_home("~\\"@ + rest, true, platform) == Ok::<PathModel, HomeError>(
            PathModel::at(RootModel::UserHome).child(rest),
        ),
        !platform.spec_is_windows() ==> spec_expand_home("~\\"@ + rest, true, platform) == Ok::<
            PathModel,
            HomeError,
        >(PathModel::at(RootModel::Text("~\\"@ + rest))),
{
    reveal_strlit("~\\");
    reveal_strlit("~/");
    reveal_strlit("~");
    let text = "~\\"@ + rest;
    assert(text.subrange(0, 2) =~= "~\\"@);
    assert(text.skip(2) =~= rest);
    assert(text.len() != 1);
    assert(text != "~"@);
    assert(text[1] != '/');
    assert(!has_prefix(text, "~/"@)) by {
        if has_prefix(text, "~/"@) {
            assert(text.subrange(0, 2)[1] == text[1]);
        }
    }
}

} // verus!
