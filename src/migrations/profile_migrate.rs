use vstd::prelude::*;

use crate::migrations::migrate_v1_to_v2;
use crate::migrations::migrate_v1_to_v2::upgrade_v1;
use crate::migrations::migrate_v1_to_v2::ProfileConfigurationV1;
use crate::migrations::migrate_v2_to_v3;
use crate::migrations::migrate_v2_to_v3::upgrade_v2;
use crate::profile::ProfileConfiguration;
use crate::profile::ProfileConfigurationView;
use crate::text::decimal;
use crate::text::has_prefix;
use crate::text::has_suffix;
use crate::text::parse_u16;
use crate::text::parsed_unsigned;
use crate::text::push_decimal;

verus! {

pub const PROFILE_FILENAME_START: &'static str = "profile_v";

pub const PROFILE_FILENAME_END: &'static str = ".json";

/// The version in the name of the snapshot file that is written, and the
/// version whose file is read in the current schema without migration.
pub const PROFILE_CURRENT_VERSION: u16 = 2;

/// The name of the snapshot file of version `version`.
pub open spec fn file_name_of(version: nat) -> Seq<char> {
    PROFILE_FILENAME_START@ + decimal(version) + PROFILE_FILENAME_END@
}

/// The version that a file name gives, if it has the shape
/// `profile_v<N>.json` with `N` a positive integer.
pub open spec fn version_in_name(name: Seq<char>) -> Option<nat> {
    let a = PROFILE_FILENAME_START@.len();
    let b = PROFILE_FILENAME_END@.len();
    if name.len() >= a + b && name.subrange(0, a as int) == PROFILE_FILENAME_START@
        && name.subrange(name.len() - b, name.len() as int) == PROFILE_FILENAME_END@ {
        match parsed_unsigned(name.subrange(a as int, name.len() - b), u16::MAX as nat) {
            Some(v) => if v >= 1 { Some(v) } else { None },
            None => None,
        }
    } else {
        None
    }
}

/// No name in `names` is a snapshot file name.
pub open spec fn no_snapshot_in(names: Seq<Seq<char>>) -> bool {
    forall|i: int| 0 <= i < names.len() ==> version_in_name(#[trigger] names[i]) is None
}

/// `v` is the greatest version among the snapshot file names in `names`.
pub open spec fn is_latest_version(names: Seq<Seq<char>>, v: nat) -> bool {
    &&& exists|i: int| 0 <= i < names.len() && version_in_name(#[trigger] names[i]) == Some(v)
    &&& forall|i: int|
        0 <= i < names.len() ==> (#[trigger] version_in_name(names[i]) matches Some(w) ==> w <= v)
}

/// The name of the snapshot file of version `version`.
pub fn profile_file_name(version: u16) -> (r: String)
    ensures
        r@ == file_name_of(version as nat),
{
    let mut r = String::from_str(PROFILE_FILENAME_START);
    push_decimal(&mut r, version as u128);
    r.append(PROFILE_FILENAME_END);
    r
}

/// The name under which a downloaded snapshot is written.
pub fn get_latest_profile_name() -> (r: String)
    ensures
        r@ == file_name_of(PROFILE_CURRENT_VERSION as nat),
{
    profile_file_name(PROFILE_CURRENT_VERSION)
}

/// The version in a snapshot file name, if `name` is one.
pub fn profile_version_of(name: &str) -> (r: Option<u16>)
    ensures
        r matches Some(v) ==> version_in_name(name@) == Some(v as nat),
        r is None ==> version_in_name(name@) is None,
{
    let n = name.unicode_len();
    let a = PROFILE_FILENAME_START.unicode_len();
    let b = PROFILE_FILENAME_END.unicode_len();
    if n < a || n - a < b {
        return None;
    }
    if !has_prefix(name, PROFILE_FILENAME_START) || !has_suffix(name, PROFILE_FILENAME_END) {
        return None;
    }
    let middle = name.substring_char(a, n - b);
    match parse_u16(middle) {
        Some(v) => if v >= 1 {
            Some(v)
        } else {
            None
        },
        None => None,
    }
}

/// The greatest version among the snapshot file names in `names`, or `None`
/// when there is no snapshot file among them.
pub fn latest_profile_version(names: &Vec<String>) -> (r: Option<u16>)
    ensures
        r is None <==> no_snapshot_in(names.deep_view()),
        r matches Some(v) ==> is_latest_version(names.deep_view(), v as nat),
{
    let ghost nv = names.deep_view();
    let mut best: Option<u16> = None;
    for i in 0..names.len()
        invariant
            nv == names.deep_view(),
            best is None <==> no_snapshot_in(nv.subrange(0, i as int)),
            best matches Some(v) ==> is_latest_version(nv.subrange(0, i as int), v as nat),
    {
        let ghost before = nv.subrange(0, i as int);
        let ghost after = nv.subrange(0, i + 1);
        assert(nv[i as int] == names@[i as int]@);
        assert forall|k: int| 0 <= k < i implies after[k] == before[k] by {}
        assert(after[i as int] == nv[i as int]);
        let found = profile_version_of(names[i].as_str());
        match found {
            Some(v) => {
                let keep = match best {
                    Some(w) => w >= v,
                    None => false,
                };
                if !keep {
                    best = Some(v);
                }
                proof {
                    if keep {
                        let w = best->Some_0;
                        let j = choose|j: int| 0 <= j < before.len() && version_in_name(#[trigger] before[j]) == Some(w as nat);
                        assert(after[j] == before[j]);
                    } else {
                        assert(version_in_name(after[i as int]) == Some(v as nat));
                    }
                    assert(!no_snapshot_in(after));
                }
            },
            None => {
                proof {
                    if let Some(w) = best {
                        let j = choose|j: int| 0 <= j < before.len() && version_in_name(#[trigger] before[j]) == Some(w as nat);
                        assert(after[j] == before[j]);
                    }
                }
            },
        }
    }
    assert(nv.subrange(0, names.len() as int) =~= nv);
    best
}

/// Why no current-schema snapshot could be had from disk.
#[derive(Debug, Clone)]
pub enum SnapshotError {
    /// No file with a snapshot name was found.
    NoSnapshot,
    /// The newest snapshot file is of a version this library cannot read.
    Unsupported { version: u16 },
    /// The snapshot file could not be read.
    Unreadable { file: String },
    /// The snapshot file could not be parsed; `cause` is the parser's report.
    Unparsable { file: String, cause: String },
}

pub open spec fn snapshot_error_text(e: SnapshotError) -> Seq<char> {
    match e {
        SnapshotError::NoSnapshot => "ERROR: No saved profiles found. Use download option first!"@,
        SnapshotError::Unsupported { version } => "ERROR: "@ + file_name_of(version as nat)
            + " is newer than this program can read"@,
        SnapshotError::Unreadable { file } => "ERROR: Failed to open "@ + file@,
        SnapshotError::Unparsable { file, cause } => "ERROR: Failed to parse "@ + file@ + " JSON - "@
            + cause@,
    }
}

impl SnapshotError {
    /// The line reported for this error; it names the file concerned.
    pub fn message(&self) -> (r: String)
        ensures
            r@ == snapshot_error_text(*self),
    {
        match self {
            SnapshotError::NoSnapshot => String::from_str(
                "ERROR: No saved profiles found. Use download option first!",
            ),
            SnapshotError::Unsupported { version } => {
                let mut r = String::from_str("ERROR: ");
                let name = profile_file_name(*version);
                r.append(name.as_str());
                r.append(" is newer than this program can read");
                r
            },
            SnapshotError::Unreadable { file } => {
                let mut r = String::from_str("ERROR: Failed to open ");
                r.append(file.as_str());
                r
            },
            SnapshotError::Unparsable { file, cause } => {
                let mut r = String::from_str("ERROR: Failed to parse ");
                r.append(file.as_str());
                r.append(" JSON - ");
                r.append(cause.as_str());
                r
            },
        }
    }
}

/// The schema in which a stored snapshot file is written.
#[derive(Debug, Clone, Copy, PartialEq, Eq, Structural)]
pub enum SnapshotSchema {
    /// The first schema, upgraded step by step after reading.
    V1,
    /// The current schema, read as it stands.
    Current,
}

/// The schema to read the snapshot file of version `version` in.
pub open spec fn schema_of_version(version: nat) -> Option<SnapshotSchema> {
    if version == 1 {
        Some(SnapshotSchema::V1)
    } else if version == PROFILE_CURRENT_VERSION as nat {
        Some(SnapshotSchema::Current)
    } else {
        None
    }
}

/// Picks the snapshot file to read among the file names `names` of the
/// working directory: the one of the greatest version, with the schema to
/// read it in. No snapshot file is an error of its own, and so is a newest
/// file of an unknown version.
pub fn resolve_latest(names: &Vec<String>) -> (r: Result<(u16, SnapshotSchema), SnapshotError>)
    ensures
        no_snapshot_in(names.deep_view()) <==> r matches Err(SnapshotError::NoSnapshot),
        r matches Ok((v, s)) ==> is_latest_version(names.deep_view(), v as nat)
            && schema_of_version(v as nat) == Some(s),
        r matches Err(SnapshotError::Unsupported { version }) ==> is_latest_version(
            names.deep_view(),
            version as nat,
        ) && schema_of_version(version as nat) is None,
        r is Ok || r matches Err(SnapshotError::NoSnapshot) || r matches Err(
            SnapshotError::Unsupported { .. },
        ),
{
    match latest_profile_version(names) {
        None => Err(SnapshotError::NoSnapshot),
        Some(v) => if v == 1 {
            Ok((v, SnapshotSchema::V1))
        } else if v == PROFILE_CURRENT_VERSION {
            Ok((v, SnapshotSchema::Current))
        } else {
            Err(SnapshotError::Unsupported { version: v })
        },
    }
}

/// A snapshot as read from disk, in the schema of its file.
#[derive(Debug, Clone)]
pub enum StoredProfile {
    V1(ProfileConfigurationV1),
    Current(ProfileConfiguration),
}

/// The current-schema value of a stored snapshot: a first-schema snapshot
/// goes through each upgrade step once, in order.
pub open spec fn migrated(stored: StoredProfile) -> ProfileConfigurationView {
    match stored {
        StoredProfile::V1(p) => upgrade_v2(upgrade_v1(p@)),
        StoredProfile::Current(p) => p@,
    }
}

/// Brings a stored snapshot to the current schema.
pub fn migrate_to_current(stored: StoredProfile) -> (r: ProfileConfiguration)
    ensures
        r@ == migrated(stored),
{
    match stored {
        StoredProfile::V1(p) => migrate_v2_to_v3::convert_profile(migrate_v1_to_v2::convert_profile(p)),
        StoredProfile::Current(p) => p,
    }
}

/// Upgrading a first-schema snapshot through the whole chain keeps its
/// discussion languages as they were and gives the settings that schema
/// lacked their defaults: no infinite scrolling, NSFW blurred, no auto-expansion.
pub proof fn lemma_first_schema_upgrade_defaults(p: ProfileConfigurationV1)
    ensures
        migrated(StoredProfile::V1(p)).profile_settings.discussion_languages
            == p.profile_settings.discussion_languages@,
        migrated(StoredProfile::V1(p)).profile_settings.infinite_scroll_enabled == false,
        migrated(StoredProfile::V1(p)).profile_settings.blur_nsfw == true,
        migrated(StoredProfile::V1(p)).profile_settings.auto_expand == false,
        migrated(StoredProfile::V1(p)).blocked_users == p@.blocked_users,
        migrated(StoredProfile::V1(p)).blocked_communities == p@.blocked_communities,
        migrated(StoredProfile::V1(p)).followed_communities == p@.followed_communities,
{
}

} // verus!
