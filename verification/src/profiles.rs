//! Profile folders: how they are named, which names may be deleted, and which entries
//! of the add-ons directory are profiles or installed files.
use vstd::prelude::*;

use crate::error::Error;
use crate::paths::component_views;
use crate::text::{
    chars_of, concat, concat3, contains, contains_char, ends_with, is_alphanumeric, is_whitespace,
    seq_contains, seq_ends_with, seq_starts_with, starts_with, str_eq, string_of_range,
    to_lowercase, unicode_is_alphanumeric, unicode_is_whitespace, unicode_lowercase,
};

verus! {

/// The character a profile name's character becomes in its folder name: letters,
/// digits, `-` and `_` stay, white space becomes `-`, anything else `_`.
pub open spec fn folder_char(c: char) -> char {
    if unicode_is_alphanumeric(c) || c == '-' || c == '_' {
        c
    } else if unicode_is_whitespace(c) {
        '-'
    } else {
        '_'
    }
}

/// Whether `c` is trimmed from the ends of a folder name.
pub open spec fn is_trimmed(c: char) -> bool {
    c == '-' || c == '_'
}

/// `s` without the trimmed characters at its start.
pub open spec fn trim_start(s: Seq<char>) -> Seq<char>
    decreases s.len(),
{
    if s.len() > 0 && is_trimmed(s[0]) {
        trim_start(s.drop_first())
    } else {
        s
    }
}

/// `s` without the trimmed characters at its end.
pub open spec fn trim_end(s: Seq<char>) -> Seq<char>
    decreases s.len(),
{
    if s.len() > 0 && is_trimmed(s.last()) {
        trim_end(s.drop_last())
    } else {
        s
    }
}

/// A profile name as it appears in its folder's name: lower-cased, its characters
/// mapped by [`folder_char`], and `-` and `_` trimmed from both ends.
pub open spec fn sanitized_name(name: Seq<char>) -> Seq<char> {
    trim_end(trim_start(unicode_lowercase(name).map_values(|c: char| folder_char(c))))
}

/// The folder of the profile `id` named `name`.
pub open spec fn profile_folder_name_spec(id: Seq<char>, name: Seq<char>) -> Seq<char> {
    id + "_"@ + sanitized_name(name)
}

proof fn lemma_trim_start_skip(s: Seq<char>, i: int)
    requires
        0 <= i <= s.len(),
        forall|k: int| 0 <= k < i ==> is_trimmed(#[trigger] s[k]),
    ensures
        trim_start(s) == trim_start(s.skip(i)),
    decreases i,
{
    if i > 0 {
        assert(s.skip(1) == s.drop_first());
        lemma_trim_start_skip(s.drop_first(), i - 1);
        assert(s.drop_first().skip(i - 1) =~= s.skip(i));
    } else {
        assert(s.skip(0) =~= s);
    }
}

proof fn lemma_trim_end_take(s: Seq<char>, j: int)
    requires
        0 <= j <= s.len(),
        forall|k: int| j <= k < s.len() ==> is_trimmed(#[trigger] s[k]),
    ensures
        trim_end(s) == trim_end(s.take(j)),
    decreases s.len() - j,
{
    if j < s.len() {
        lemma_trim_end_take(s.drop_last(), j);
        assert(s.drop_last().take(j) =~= s.take(j));
    } else {
        assert(s.take(j) =~= s);
    }
}

/// The sanitised form of a profile name (see [`sanitized_name`]).
pub fn sanitize_profile_name(name: &str) -> (r: String)
    ensures
        r@ == sanitized_name(name@),
{
    let lower = to_lowercase(name);
    let cs = chars_of(lower.as_str());
    let mut mapped: Vec<char> = Vec::new();
    let mut i: usize = 0;
    let ghost target = unicode_lowercase(name@).map_values(|c: char| folder_char(c));
    while i < cs.len()
        invariant
            cs@ == unicode_lowercase(name@),
            i <= cs@.len(),
            target == cs@.map_values(|c: char| folder_char(c)),
            mapped@ == target.take(i as int),
        decreases cs@.len() - i,
    {
        let c = cs[i];
        let m = if is_alphanumeric(c) || c == '-' || c == '_' {
            c
        } else if is_whitespace(c) {
            '-'
        } else {
            '_'
        };
        mapped.push(m);
        assert(target.take(i + 1) =~= target.take(i as int).push(target[i as int]));
        i = i + 1;
    }
    assert(target.take(cs@.len() as int) =~= target);
    let mut start: usize = 0;
    while start < mapped.len() && (mapped[start] == '-' || mapped[start] == '_')
        invariant
            mapped@ == target,
            start <= mapped@.len(),
            forall|k: int| 0 <= k < start ==> is_trimmed(#[trigger] target[k]),
        decreases mapped@.len() - start,
    {
        start = start + 1;
    }
    proof {
        lemma_trim_start_skip(target, start as int);
    }
    let mut end: usize = mapped.len();
    while end > start && (mapped[end - 1] == '-' || mapped[end - 1] == '_')
        invariant
            mapped@ == target,
            start <= end <= mapped@.len(),
            forall|k: int| end <= k < target.len() ==> is_trimmed(#[trigger] target[k]),
        decreases end,
    {
        end = end - 1;
    }
    proof {
        let rest = target.skip(start as int);
        if start < end || start == target.len() {
            assert(trim_start(rest) == rest) by {
                if rest.len() > 0 {
                    assert(rest[0] == target[start as int]);
                }
            }
        } else {
            // Everything from `start` on is trimmed: the name trims to nothing.
            assert forall|k: int| 0 <= k < rest.len() implies is_trimmed(#[trigger] rest[k]) by {
                assert(rest[k] == target[start + k]);
            }
            lemma_trim_start_skip(rest, rest.len() as int);
            assert(rest.skip(rest.len() as int) =~= Seq::<char>::empty());
        }
        let kept = target.subrange(start as int, end as int);
        assert forall|k: int| end - start <= k < rest.len() implies is_trimmed(#[trigger] rest[k]) by {
            assert(rest[k] == target[start + k]);
        }
        lemma_trim_end_take(rest, end - start);
        assert(rest.take(end - start) =~= kept);
        if end > start {
            assert(kept.last() == target[end - 1]);
        }
    }
    string_of_range(&mapped, start, end)
}

/// The folder of the profile `profile_id` named `profile_name`.
pub fn profile_folder_name(profile_id: &str, profile_name: &str) -> (r: String)
    ensures
        r@ == profile_folder_name_spec(profile_id@, profile_name@),
{
    let sanitized = sanitize_profile_name(profile_name);
    concat3(profile_id, "_", sanitized.as_str())
}

/// The prefix every profile folder's name has.
pub open spec fn profile_prefix() -> Seq<char> {
    "profile_"@
}

/// The refusal of a profile folder name for deletion, if any: the name must not be
/// empty, `.` or `..`, must begin with `profile_`, and must hold no `..`, `/` or `\`.
pub open spec fn delete_refusal(name: Seq<char>) -> Option<Seq<char>> {
    if name.len() == 0 || name == "."@ || name == ".."@ {
        Some("Invalid profile folder name"@)
    } else if !seq_starts_with(name, profile_prefix()) {
        Some("Profile folder must start with 'profile_'"@)
    } else if seq_contains(name, ".."@) || name.contains('/') || name.contains('\\') {
        Some("Invalid profile folder name"@)
    } else {
        None
    }
}

/// Checks that a profile folder may be deleted by name (see [`delete_refusal`]).
pub fn validate_profile_folder_for_delete(profile_folder: &str) -> (r: Result<(), Error>)
    ensures
        match delete_refusal(profile_folder@) {
            Some(m) => r matches Err(e) && e matches Error::InvalidInput(x) && x@ == m,
            None => r is Ok,
        },
{
    if profile_folder.is_empty() || str_eq(profile_folder, ".") || str_eq(profile_folder, "..") {
        return Err(Error::InvalidInput("Invalid profile folder name".to_owned()));
    }
    if !starts_with(profile_folder, "profile_") {
        return Err(Error::InvalidInput("Profile folder must start with 'profile_'".to_owned()));
    }
    if contains(profile_folder, "..") || contains_char(profile_folder, '/') || contains_char(
        profile_folder,
        '\\',
    ) {
        return Err(Error::InvalidInput("Invalid profile folder name".to_owned()));
    }
    Ok(())
}

/// Whether an entry of the add-ons directory is a profile folder: a directory whose
/// name begins with `profile_`.
pub fn is_profile_folder(is_dir: bool, name: &str) -> (r: bool)
    ensures
        r == (is_dir && seq_starts_with(name@, profile_prefix())),
{
    is_dir && starts_with(name, "profile_")
}

/// Whether an entry of a profile's folder is an installed file: a file whose name
/// ends with `.vpk`.
pub fn is_installed_vpk(is_file: bool, name: &str) -> (r: bool)
    ensures
        r == (is_file && seq_ends_with(name@, ".vpk"@)),
{
    is_file && ends_with(name, ".vpk")
}


/// Why a profile folder that exists may not be deleted after its path was resolved.
#[derive(Clone, Copy, Debug, PartialEq, Eq)]
pub enum ContainmentFailure {
    /// The add-ons directory could not be resolved.
    AddonsUnresolved,
    /// The profile folder's path could not be resolved.
    ProfileUnresolved,
    /// The resolved profile folder lies outside the add-ons directory.
    OutsideAddons,
}

/// The message of a containment failure; `shown_path` is the profile path as shown.
pub open spec fn containment_message(kind: ContainmentFailure, shown_path: Seq<char>) -> Seq<char> {
    match kind {
        ContainmentFailure::AddonsUnresolved => "Unable to resolve addons directory"@,
        ContainmentFailure::ProfileUnresolved => "Unable to resolve profile path: "@ + shown_path,
        ContainmentFailure::OutsideAddons => "Profile folder must be within addons directory"@,
    }
}

/// The error of a containment failure.
pub fn containment_error(kind: ContainmentFailure, shown_path: &str) -> (r: Error)
    ensures
        r matches Error::UnauthorizedPath(m) && m@ == containment_message(kind, shown_path@),
{
    let m = match kind {
        ContainmentFailure::AddonsUnresolved => "Unable to resolve addons directory".to_owned(),
        ContainmentFailure::ProfileUnresolved => concat("Unable to resolve profile path: ", shown_path),
        ContainmentFailure::OutsideAddons => "Profile folder must be within addons directory".to_owned(),
    };
    Error::UnauthorizedPath(m)
}

/// Whether the path `inner`, as components, lies within the path `outer`: `outer`'s
/// components begin it.
pub open spec fn within(outer: Seq<Seq<char>>, inner: Seq<Seq<char>>) -> bool {
    outer.len() <= inner.len() && inner.subrange(0, outer.len() as int) == outer
}

/// Checks that the resolved profile folder lies within the resolved add-ons directory,
/// both given as path components.
pub fn require_within_addons(addons: &Vec<String>, profile: &Vec<String>) -> (r: Result<(), Error>)
    ensures
        r is Ok <==> within(component_views(addons@), component_views(profile@)),
        r matches Err(e) ==> e matches Error::UnauthorizedPath(m) && m@ == containment_message(
            ContainmentFailure::OutsideAddons,
            Seq::empty(),
        ),
{
    let ghost outer = component_views(addons@);
    let ghost inner = component_views(profile@);
    if addons.len() > profile.len() {
        return Err(containment_error(ContainmentFailure::OutsideAddons, ""));
    }
    let mut i: usize = 0;
    while i < addons.len()
        invariant
            addons@.len() <= profile@.len(),
            i <= addons@.len(),
            outer == component_views(addons@),
            inner == component_views(profile@),
            forall|j: int| 0 <= j < i ==> #[trigger] inner[j] == outer[j],
        decreases addons@.len() - i,
    {
        if !str_eq(addons[i].as_str(), profile[i].as_str()) {
            assert(inner.subrange(0, outer.len() as int)[i as int] != outer[i as int]);
            return Err(containment_error(ContainmentFailure::OutsideAddons, ""));
        }
        i = i + 1;
    }
    assert(inner.subrange(0, outer.len() as int) =~= outer);
    Ok(())
}

} // verus!
