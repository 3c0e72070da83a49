//! Profile names and the storage locations derived from them.
//!
//! A profile is a free-form name chosen by the user. Before it reaches the
//! file system it is reduced to a storage-safe form, so two raw names with
//! the same safe form share one identity and one session cache.

use crate::text::{chars_of, concat, is_blank, trim_bounds, trimmed};
use vstd::prelude::*;
use vstd::string::StringExecFns;

verus! {

/// Directory below the data root that holds every file of this application.
pub const APP_DIR_NAME: &'static str = "aethos-linux";

/// The profile that a blank name stands for.
pub const DEFAULT_PROFILE: &'static str = "default";

/// First part of the identity file's name.
pub const IDENTITY_FILE_PREFIX: &'static str = "identity";

/// First part of the session cache file's name.
pub const SESSION_CACHE_FILE_PREFIX: &'static str = "session-cache";

/// Device label used where the host does not name itself.
pub const DEFAULT_DEVICE_NAME: &'static str = "linux-device";

/// The characters a safe profile name is made of: ASCII letters, ASCII
/// digits, `-` and `_`.
pub open spec fn is_profile_char(c: char) -> bool {
    ('a' <= c && c <= 'z') || ('A' <= c && c <= 'Z') || ('0' <= c && c <= '9') || c == '-' || c
        == '_'
}

/// What a character of a profile name is stored as.
pub open spec fn sanitized_char(c: char) -> char {
    if is_profile_char(c) {
        c
    } else {
        '_'
    }
}

/// The storage-safe form of a profile name: the default profile for a
/// blank name, otherwise the trimmed name with every character outside the
/// safe set replaced by `_`.
pub open spec fn sanitized_profile(profile: Seq<char>) -> Seq<char> {
    let kept = trimmed(profile);
    if kept.len() == 0 {
        DEFAULT_PROFILE@
    } else {
        Seq::new(kept.len(), |i: int| sanitized_char(kept[i]))
    }
}

/// `base` extended by the relative path component `component`, with one
/// separator between them unless `base` is empty or already ends in one.
pub open spec fn joined(base: Seq<char>, component: Seq<char>) -> Seq<char> {
    if base.len() == 0 || base.last() == '/' {
        base + component
    } else {
        base + seq!['/'] + component
    }
}

/// Name of the identity file of the profile whose safe form is `safe`.
pub open spec fn identity_file_name(safe: Seq<char>) -> Seq<char> {
    IDENTITY_FILE_PREFIX@ + seq!['-'] + safe + ".json"@
}

/// Name of the session cache file of the profile whose safe form is `safe`.
pub open spec fn session_cache_file_name(safe: Seq<char>) -> Seq<char> {
    SESSION_CACHE_FILE_PREFIX@ + seq!['-'] + safe + ".enc.json"@
}

/// Where the identity of `profile` is kept below `base_dir`.
pub open spec fn identity_location(base_dir: Seq<char>, profile: Seq<char>) -> Seq<char> {
    joined(joined(base_dir, APP_DIR_NAME@), identity_file_name(sanitized_profile(profile)))
}

/// Where the session cache of `profile` is kept below `base_dir`.
pub open spec fn session_cache_location(base_dir: Seq<char>, profile: Seq<char>) -> Seq<char> {
    joined(joined(base_dir, APP_DIR_NAME@), session_cache_file_name(sanitized_profile(profile)))
}

/// What the process environment says about where data may be kept.
#[derive(Debug, Clone, PartialEq, Eq)]
pub struct StorageEnv {
    /// The explicit data-home override, if the variable is set.
    pub xdg_data_home: Option<String>,
    /// The user's home directory, if the variable is set.
    pub home: Option<String>,
    /// The system's directory for temporary files.
    pub temp_dir: String,
}

/// The data root that `env` selects: the override when it is set and not
/// blank, else `.local/share` below the home directory, else the
/// temporary directory.
pub open spec fn data_root(env: StorageEnv) -> Seq<char> {
    if env.xdg_data_home is Some && !is_blank(env.xdg_data_home->0@) {
        env.xdg_data_home->0@
    } else if env.home is Some {
        joined(joined(env.home->0@, ".local"@), "share"@)
    } else {
        env.temp_dir@
    }
}

/// The device label for a host that reports `hostname`: the host name when
/// one is set and not blank, else the default label.
pub open spec fn device_name_for(hostname: Option<Seq<char>>) -> Seq<char> {
    if hostname is Some && !is_blank(hostname->0) {
        hostname->0
    } else {
        DEFAULT_DEVICE_NAME@
    }
}

fn is_safe(c: char) -> (r: bool)
    ensures
        r == is_profile_char(c),
{
    ('a' <= c && c <= 'z') || ('A' <= c && c <= 'Z') || ('0' <= c && c <= '9') || c == '-' || c
        == '_'
}

/// Whether `s` is empty or white space only.
pub fn blank(s: &str) -> (r: bool)
    ensures
        r == is_blank(s@),
{
    let chars = chars_of(s);
    let (start, end) = trim_bounds(&chars);
    start == end
}

/// Reduces a profile name to its storage-safe form.
pub fn sanitize_profile(profile: &str) -> (safe: String)
    ensures
        safe@ == sanitized_profile(profile@),
{
    let chars = chars_of(profile);
    let (start, end) = trim_bounds(&chars);
    if start == end {
        return DEFAULT_PROFILE.to_owned();
    }
    let ghost kept = trimmed(profile@);
    let mut safe = String::new();
    let mut i: usize = start;
    while i < end
        invariant
            start <= i <= end <= chars.len(),
            kept == chars@.subrange(start as int, end as int),
            safe@ == Seq::new((i - start) as nat, |k: int| sanitized_char(kept[k])),
        decreases end - i,
    {
        let c = chars[i];
        let ghost before = safe@;
        if is_safe(c) {
            safe.push(c);
        } else {
            safe.push('_');
        }
        proof {
            assert(kept[i - start] == c);
            assert(safe@ == Seq::new((i + 1 - start) as nat, |k: int| sanitized_char(kept[k])));
        }
        i = i + 1;
    }
    safe
}

/// Extends `base` by one relative path component.
pub fn join_path(base: &str, component: &str) -> (path: String)
    ensures
        path@ == joined(base@, component@),
{
    let chars = chars_of(base);
    if chars.len() == 0 || chars[chars.len() - 1] == '/' {
        concat(base, component)
    } else {
        let mut path = base.to_owned();
        path.push('/');
        path.append(component);
        path
    }
}

fn profile_file_name(prefix: &str, safe: &str, suffix: &str) -> (name: String)
    ensures
        name@ == prefix@ + seq!['-'] + safe@ + suffix@,
{
    let mut name = prefix.to_owned();
    name.push('-');
    name.append(safe);
    name.append(suffix);
    name
}

/// The path of the identity file of `profile` below the data root
/// `base_dir`.
pub fn identity_file_path_for(base_dir: &str, profile: &str) -> (path: String)
    ensures
        path@ == identity_location(base_dir@, profile@),
{
    let safe = sanitize_profile(profile);
    let dir = join_path(base_dir, APP_DIR_NAME);
    let name = profile_file_name(IDENTITY_FILE_PREFIX, safe.as_str(), ".json");
    join_path(dir.as_str(), name.as_str())
}

/// The path of the session cache file of `profile` below the data root
/// `base_dir`.
pub fn session_cache_file_path_for(base_dir: &str, profile: &str) -> (path: String)
    ensures
        path@ == session_cache_location(base_dir@, profile@),
{
    let safe = sanitize_profile(profile);
    let dir = join_path(base_dir, APP_DIR_NAME);
    let name = profile_file_name(SESSION_CACHE_FILE_PREFIX, safe.as_str(), ".enc.json");
    join_path(dir.as_str(), name.as_str())
}

/// Chooses the data root from what the environment offers.
pub fn base_data_dir(env: &StorageEnv) -> (root: String)
    ensures
        root@ == data_root(*env),
{
    if let Some(xdg_data_home) = &env.xdg_data_home {
        if !blank(xdg_data_home.as_str()) {
            return xdg_data_home.clone();
        }
    }
    if let Some(home) = &env.home {
        let local = join_path(home.as_str(), ".local");
        return join_path(local.as_str(), "share");
    }
    env.temp_dir.clone()
}

/// The path of the identity file of `profile` under the data root that
/// `env` selects.
pub fn identity_file_path(env: &StorageEnv, profile: &str) -> (path: String)
    ensures
        path@ == identity_location(data_root(*env), profile@),
{
    let root = base_data_dir(env);
    identity_file_path_for(root.as_str(), profile)
}

/// The path of the session cache file of `profile` under the data root
/// that `env` selects.
pub fn session_cache_file_path(env: &StorageEnv, profile: &str) -> (path: String)
    ensures
        path@ == session_cache_location(data_root(*env), profile@),
{
    let root = base_data_dir(env);
    session_cache_file_path_for(root.as_str(), profile)
}

/// Chooses the device label from the host name the environment reports.
pub fn infer_device_name(hostname: Option<&str>) -> (name: String)
    ensures
        name@ == device_name_for(
            match hostname {
                Some(h) => Some(h@),
                None => None,
            },
        ),
{
    match hostname {
        Some(h) => {
            if blank(h) {
                DEFAULT_DEVICE_NAME.to_owned()
            } else {
                h.to_owned()
            }
        },
        None => DEFAULT_DEVICE_NAME.to_owned(),
    }
}

/// A blank profile name is stored under the default profile, and no other
/// name is, except the default profile's own name.
pub proof fn lemma_default_profile_iff_blank(profile: Seq<char>)
    requires
        trimmed(profile) != DEFAULT_PROFILE@,
    ensures
        sanitized_profile(profile) == DEFAULT_PROFILE@ <==> is_blank(profile),
{
    reveal_strlit("default");
    let kept = trimmed(profile);
    let safe = sanitized_profile(profile);
    if kept.len() > 0 && safe == DEFAULT_PROFILE@ {
        assert(kept.len() == DEFAULT_PROFILE@.len());
        assert forall|i: int| 0 <= i < kept.len() implies kept[i] == DEFAULT_PROFILE@[i] by {
            assert(safe[i] == sanitized_char(kept[i]));
            assert(DEFAULT_PROFILE@[i] != '_');
        }
        assert(kept =~= DEFAULT_PROFILE@);
    }
}

/// Sanitizing keeps the length of a name that is not blank, keeps each
/// safe character where it is, and puts `_` in the place of every other.
pub proof fn lemma_sanitized_characters(profile: Seq<char>, i: int)
    requires
        !is_blank(profile),
        0 <= i < trimmed(profile).len(),
    ensures
        sanitized_profile(profile).len() == trimmed(profile).len(),
        is_profile_char(trimmed(profile)[i]) ==> sanitized_profile(profile)[i] == trimmed(
            profile,
        )[i],
        !is_profile_char(trimmed(profile)[i]) ==> sanitized_profile(profile)[i] == '_',
        is_profile_char(sanitized_profile(profile)[i]),
{
}

/// Text between the same two brackets is the same if the whole is.
proof fn lemma_bracketed_text(prefix: Seq<char>, first: Seq<char>, second: Seq<char>, suffix:
    Seq<char>)
    requires
        prefix + first + suffix == prefix + second + suffix,
    ensures
        first == second,
{
    let left = prefix + first + suffix;
    let right = prefix + second + suffix;
    assert(left.len() == right.len());
    assert(first.len() == second.len());
    assert forall|i: int| 0 <= i < first.len() implies first[i] == second[i] by {
        assert(left[prefix.len() + i] == first[i]);
        assert(right[prefix.len() + i] == second[i]);
    }
    assert(first =~= second);
}

/// Joining two components to one base gives one path only if the
/// components are the same.
proof fn lemma_joined_component(base: Seq<char>, first: Seq<char>, second: Seq<char>)
    requires
        joined(base, first) == joined(base, second),
    ensures
        first == second,
{
    let lead = if base.len() == 0 || base.last() == '/' {
        base
    } else {
        base + seq!['/']
    };
    assert(joined(base, first) =~= lead + first + Seq::<char>::empty());
    assert(joined(base, second) =~= lead + second + Seq::<char>::empty());
    lemma_bracketed_text(lead, first, second, Seq::<char>::empty());
}

/// Profile isolation: two profile names address the same identity file
/// exactly when they have the same safe form, and likewise for the
/// session cache file.
pub proof fn lemma_locations_separate_profiles(
    base_dir: Seq<char>,
    first: Seq<char>,
    second: Seq<char>,
)
    ensures
        identity_location(base_dir, first) == identity_location(base_dir, second)
            <==> sanitized_profile(first) == sanitized_profile(second),
        session_cache_location(base_dir, first) == session_cache_location(base_dir, second)
            <==> sanitized_profile(first) == sanitized_profile(second),
{
    let dir = joined(base_dir, APP_DIR_NAME@);
    let a = sanitized_profile(first);
    let b = sanitized_profile(second);
    if identity_location(base_dir, first) == identity_location(base_dir, second) {
        lemma_joined_component(dir, identity_file_name(a), identity_file_name(b));
        lemma_bracketed_text(IDENTITY_FILE_PREFIX@ + seq!['-'], a, b, ".json"@);
    }
    if session_cache_location(base_dir, first) == session_cache_location(base_dir, second) {
        lemma_joined_component(dir, session_cache_file_name(a), session_cache_file_name(b));
        lemma_bracketed_text(SESSION_CACHE_FILE_PREFIX@ + seq!['-'], a, b, ".enc.json"@);
    }
}

/// The identity file of one profile is never the session cache file of
/// another, or of the same.
pub proof fn lemma_identity_and_cache_files_differ(
    base_dir: Seq<char>,
    first: Seq<char>,
    second: Seq<char>,
)
    ensures
        identity_location(base_dir, first) != session_cache_location(base_dir, second),
{
    reveal_strlit("identity");
    reveal_strlit("session-cache");
    let dir = joined(base_dir, APP_DIR_NAME@);
    let identity = identity_file_name(sanitized_profile(first));
    let cache = session_cache_file_name(sanitized_profile(second));
    if joined(dir, identity) == joined(dir, cache) {
        lemma_joined_component(dir, identity, cache);
        assert(identity[0] == 'i');
        assert(cache[0] == 's');
    }
}

} // verus!
