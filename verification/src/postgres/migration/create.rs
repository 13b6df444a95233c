//! Naming of reversible `SQLx` migration file pairs.
//!
//! A migration is named `{version}_{description}{suffix}`, where the version
//! is a Unix timestamp in seconds and the description is normalized to
//! lowercase ASCII words joined by single underscores.

use std::num::TryFromIntError;
use std::path::{Path, PathBuf};
use std::time::{Duration, SystemTime, SystemTimeError};
use vstd::prelude::*;

use crate::postgres::duration_of_secs;
use crate::text::{
    ascii_alphanumeric, ascii_lowercase, ascii_whitespace, decimal, decimal_digits, decimal_string,
    decimal_string_unsigned,
    is_ascii_alphanumeric, is_ascii_whitespace, push_char, to_ascii_lowercase, trim,
    trimmed_bounds,
};

verus! {

/// `std::path::Path`, carried through opaque.
#[verifier::external_type_specification]
#[verifier::external_body]
pub struct ExPath(Path);

/// `std::path::PathBuf`, carried through opaque.
#[verifier::external_type_specification]
#[verifier::external_body]
pub struct ExPathBuf(PathBuf);

/// `std::io::Error`, carried through opaque.
#[verifier::external_type_specification]
#[verifier::external_body]
pub struct ExIoError(std::io::Error);

/// `std::time::SystemTime`, carried through opaque.
#[verifier::external_type_specification]
#[verifier::external_body]
pub struct ExSystemTime(SystemTime);

/// `std::time::SystemTimeError`, carried through opaque.
#[verifier::external_type_specification]
#[verifier::external_body]
pub struct ExSystemTimeError(SystemTimeError);

/// The two halves of a reversible migration.
#[derive(Clone, Copy, Debug, PartialEq, Eq, Structural)]
pub enum MigrationType {
    Up,
    Down,
}

impl MigrationType {
    /// The file name suffix of this half.
    pub open spec fn suffix_spec(self) -> Seq<char> {
        match self {
            MigrationType::Up => ".up.sql"@,
            MigrationType::Down => ".down.sql"@,
        }
    }

    /// The template written into a new file of this half.
    pub open spec fn file_content_spec(self) -> Seq<char> {
        match self {
            MigrationType::Up => "-- Add up migration script here\n"@,
            MigrationType::Down => "-- Add down migration script here\n"@,
        }
    }

    /// Returns the file name suffix: `.up.sql` or `.down.sql`.
    pub fn suffix(self) -> (r: &'static str)
        ensures
            r@ == self.suffix_spec(),
    {
        match self {
            MigrationType::Up => ".up.sql",
            MigrationType::Down => ".down.sql",
        }
    }

    /// Returns the template content of a newly created file of this half.
    pub fn file_content(self) -> (r: &'static str)
        ensures
            r@ == self.file_content_spec(),
    {
        match self {
            MigrationType::Up => "-- Add up migration script here\n",
            MigrationType::Down => "-- Add down migration script here\n",
        }
    }
}

/// Files created for a reversible `SQLx` migration.
#[derive(Clone, Debug, PartialEq, Eq)]
pub struct CreatedMigration {
    pub(crate) up_path: PathBuf,
    pub(crate) down_path: PathBuf,
    pub(crate) version: i64,
}

impl CreatedMigration {
    pub closed spec fn version_spec(&self) -> i64 {
        self.version
    }

    pub closed spec fn up_path_spec(&self) -> PathBuf {
        self.up_path
    }

    pub closed spec fn down_path_spec(&self) -> PathBuf {
        self.down_path
    }

    /// Returns the timestamp version used in the migration filenames.
    pub fn version(&self) -> (r: i64)
        ensures
            r == self.version_spec(),
    {
        self.version
    }

    /// Returns the created up migration path.
    pub fn up_path(&self) -> (r: &PathBuf)
        ensures
            *r == self.up_path_spec(),
    {
        &self.up_path
    }

    /// Returns the created down migration path.
    pub fn down_path(&self) -> (r: &PathBuf)
        ensures
            *r == self.down_path_spec(),
    {
        &self.down_path
    }
}

/// A clone of a `PathBuf` is the same path.
pub assume_specification[ <PathBuf as Clone>::clone ](path: &PathBuf) -> (r: PathBuf)
    ensures
        r == *path,
;

/// The text `Path::display` gives for `path`.
pub uninterp spec fn path_display_text(path: PathBuf) -> Seq<char>;

/// The `Display` text of `path` (`Path::display`); named by
/// [`path_display_text`], a function of the path alone.
#[verifier::external_body]
fn display_path(path: &PathBuf) -> (r: String)
    ensures
        r@ == path_display_text(*path),
{
    format!("{}", path.display())
}

/// The `Debug` text of a character (quoted and escaped).
pub uninterp spec fn char_debug_text(c: char) -> Seq<char>;

/// The `Debug` text of `c` (`<char as Debug>::fmt`); named by
/// [`char_debug_text`], a function of the character alone.
#[verifier::external_body]
fn debug_char(c: char) -> (r: String)
    ensures
        r@ == char_debug_text(c),
{
    format!("{c:?}")
}

/// Error returned while creating migration files.
#[allow(inconsistent_fields)]
#[derive(Debug)]
pub enum CreateError {
    /// The supplied description was empty after normalization.
    EmptyDescription,
    /// The supplied description contained a character that is not valid in the generated filename.
    InvalidDescriptionCharacter { character: char },
    /// The system clock was before the Unix epoch.
    SystemTime(SystemTimeError),
    /// The Unix timestamp does not fit `SQLx`'s signed migration version.
    VersionOverflow { seconds: u64, source: TryFromIntError },
    /// The target migration directory could not be created.
    CreateDirectory { path: PathBuf, source: std::io::Error },
    /// A target migration file already exists.
    FileExists { path: PathBuf },
    /// A target migration file could not be created.
    CreateFile { path: PathBuf, source: std::io::Error },
    /// A target migration file could not be written.
    WriteFile { path: PathBuf, source: std::io::Error },
}

/// The message of a migration creation error.
pub open spec fn create_error_message(e: CreateError) -> Seq<char> {
    match e {
        CreateError::EmptyDescription => "migration description is empty"@,
        CreateError::InvalidDescriptionCharacter { character } =>
            "migration description contains invalid character "@ + char_debug_text(character),
        CreateError::SystemTime(_) => "system clock is before Unix epoch"@,
        CreateError::VersionOverflow { seconds, .. } => "migration version "@ + decimal_digits(
            seconds as nat,
        ) + " does not fit into SQLx's i64 migration version"@,
        CreateError::CreateDirectory { path, .. } => "migration directory creation failed at "@
            + path_display_text(path),
        CreateError::FileExists { path } => "migration file already exists at "@
            + path_display_text(path),
        CreateError::CreateFile { path, .. } => "migration file creation failed at "@
            + path_display_text(path),
        CreateError::WriteFile { path, .. } => "migration file write failed at "@
            + path_display_text(path),
    }
}

impl CreateError {
    /// The message of this error.
    pub fn message(&self) -> (r: String)
        ensures
            r@ == create_error_message(*self),
    {
        match self {
            CreateError::EmptyDescription => String::from_str("migration description is empty"),
            CreateError::InvalidDescriptionCharacter { character } => {
                let mut text = String::from_str("migration description contains invalid character ");
                text.append(debug_char(*character).as_str());
                text
            },
            CreateError::SystemTime(_) => String::from_str("system clock is before Unix epoch"),
            CreateError::VersionOverflow { seconds, .. } => {
                let mut text = String::from_str("migration version ");
                text.append(decimal_string_unsigned(*seconds).as_str());
                text.append(" does not fit into SQLx's i64 migration version");
                text
            },
            CreateError::CreateDirectory { path, .. } => {
                let mut text = String::from_str("migration directory creation failed at ");
                text.append(display_path(path).as_str());
                text
            },
            CreateError::FileExists { path } => {
                let mut text = String::from_str("migration file already exists at ");
                text.append(display_path(path).as_str());
                text
            },
            CreateError::CreateFile { path, .. } => {
                let mut text = String::from_str("migration file creation failed at ");
                text.append(display_path(path).as_str());
                text
            },
            CreateError::WriteFile { path, .. } => {
                let mut text = String::from_str("migration file write failed at ");
                text.append(display_path(path).as_str());
                text
            },
        }
    }
}

/// Characters that separate words of a description: `_`, `-` and ASCII whitespace.
pub open spec fn is_separator(c: char) -> bool {
    c == '_' || c == '-' || is_ascii_whitespace(c)
}

/// Characters a description may hold once trimmed.
pub open spec fn is_description_char(c: char) -> bool {
    is_ascii_alphanumeric(c) || is_separator(c)
}

/// The words of `s` (its runs of non-separators), lowercased and joined by
/// single underscores: each run of separators between two words becomes one
/// `_`, and separators before the first word or after the last one vanish.
pub open spec fn collapse_separators(s: Seq<char>) -> Seq<char>
    decreases s.len(),
{
    if s.len() == 0 {
        Seq::empty()
    } else {
        let init = s.drop_last();
        let c = s.last();
        let prev = collapse_separators(init);
        if is_separator(c) {
            prev
        } else if init.len() > 0 && is_separator(init.last()) && prev.len() > 0 {
            prev.push('_').push(ascii_lowercase(c))
        } else {
            prev.push(ascii_lowercase(c))
        }
    }
}

/// The position of the first character of `t` that a description may not hold.
pub open spec fn first_invalid_index(t: Seq<char>) -> int {
    choose|i: int|
        0 <= i < t.len() && !is_description_char(t[i]) && forall|j: int|
            0 <= j < i ==> is_description_char(#[trigger] t[j])
}

/// What normalizing the description `d` gives: `d` is trimmed of white space;
/// an empty remainder, or one without a letter or digit, is `EmptyDescription`;
/// the first character that is neither an ASCII letter or digit nor a separator
/// is reported; otherwise the words are lowercased and joined by `_`.
pub open spec fn normalized_description(d: Seq<char>) -> Result<Seq<char>, CreateError> {
    let t = trim(d);
    if t.len() == 0 {
        Err(CreateError::EmptyDescription)
    } else if exists|i: int| 0 <= i < t.len() && !is_description_char(#[trigger] t[i]) {
        Err(CreateError::InvalidDescriptionCharacter { character: t[first_invalid_index(t)] })
    } else if !(exists|i: int| 0 <= i < t.len() && is_ascii_alphanumeric(#[trigger] t[i])) {
        Err(CreateError::EmptyDescription)
    } else {
        Ok(collapse_separators(t))
    }
}

/// The file name of one half of a migration: `{version}_{description}{suffix}`.
pub open spec fn migration_file_name_spec(
    version: i64,
    description: Seq<char>,
    migration_type: MigrationType,
) -> Seq<char> {
    decimal(version as int) + seq!['_'] + description + migration_type.suffix_spec()
}

/// `collapse_separators(s)` is empty exactly when `s` holds only separators.
pub(crate) proof fn lemma_collapse_empty(s: Seq<char>)
    ensures
        collapse_separators(s).len() == 0 <==> forall|i: int|
            0 <= i < s.len() ==> is_separator(#[trigger] s[i]),
    decreases s.len(),
{
    if s.len() > 0 {
        let init = s.drop_last();
        lemma_collapse_empty(init);
        assert forall|i: int| 0 <= i < init.len() implies init[i] == s[i] by {}
        if !is_separator(s.last()) {
            assert(!is_separator(s[s.len() - 1]));
        } else {
            assert((forall|i: int| 0 <= i < s.len() ==> is_separator(#[trigger] s[i])) <==> (
            forall|i: int| 0 <= i < init.len() ==> is_separator(#[trigger] init[i]))) by {
                if forall|i: int| 0 <= i < init.len() ==> is_separator(#[trigger] init[i]) {
                    assert forall|i: int| 0 <= i < s.len() implies is_separator(#[trigger] s[i]) by {
                        if i < init.len() {
                            assert(is_separator(init[i]));
                        }
                    }
                }
            }
        }
    }
}

/// Normalizes a migration description into the word part of a file name.
pub fn normalize_description(description: &str) -> (r: Result<String, CreateError>)
    ensures
        match r {
            Ok(s) => normalized_description(description@) == Ok::<Seq<char>, CreateError>(s@),
            Err(e) => normalized_description(description@) == Err::<Seq<char>, CreateError>(e),
        },
{
    let (start, end) = trimmed_bounds(description);
    let ghost t = description@.subrange(start as int, end as int);
    if start == end {
        return Err(CreateError::EmptyDescription);
    }
    let mut normalized = String::new();
    let mut wrote_any = false;
    let mut pending_separator = false;
    let mut i: usize = start;
    assert(t.take(0) =~= Seq::<char>::empty());
    while i < end
        invariant
            start <= i <= end <= description@.len(),
            start < end,
            t == description@.subrange(start as int, end as int),
            t == trim(description@),
            normalized@ == collapse_separators(t.take(i - start)),
            wrote_any == (normalized@.len() > 0),
            pending_separator == (i > start && is_separator(t[i - start - 1])),
            forall|j: int| 0 <= j < i - start ==> is_description_char(#[trigger] t[j]),
        decreases end - i,
    {
        let c = description.get_char(i);
        let ghost k = i - start;
        assert(c == t[k]);
        assert(t.take(k + 1).drop_last() =~= t.take(k));
        assert(t.take(k + 1).last() == c);
        if ascii_alphanumeric(c) {
            if pending_separator && wrote_any {
                push_char(&mut normalized, '_');
            }
            push_char(&mut normalized, to_ascii_lowercase(c));
            wrote_any = true;
            pending_separator = false;
        } else if c == '_' || c == '-' || ascii_whitespace(c) {
            pending_separator = true;
        } else {
            proof {
                assert(!is_description_char(t[k]));
                let m = first_invalid_index(t);
                assert(0 <= m < t.len() && !is_description_char(t[m]) && forall|j: int|
                    0 <= j < m ==> is_description_char(#[trigger] t[j]));
                if m < k {
                    assert(is_description_char(t[m]));
                }
                if k < m {
                    assert(is_description_char(t[k]));
                }
                assert(m == k);
            }
            return Err(CreateError::InvalidDescriptionCharacter { character: c });
        }
        i = i + 1;
    }
    assert(t.take(end - start) =~= t);
    proof {
        lemma_collapse_empty(t);
        assert(!(exists|j: int| 0 <= j < t.len() && !is_description_char(#[trigger] t[j])));
    }
    if !wrote_any {
        proof {
            assert forall|j: int| 0 <= j < t.len() implies !is_ascii_alphanumeric(#[trigger] t[j]) by {
                assert(is_separator(t[j]));
            }
        }
        return Err(CreateError::EmptyDescription);
    }
    proof {
        let j = choose|j: int| 0 <= j < t.len() && !is_separator(#[trigger] t[j]);
        assert(is_description_char(t[j]));
        assert(is_ascii_alphanumeric(t[j]));
    }
    Ok(normalized)
}

/// The path `Path::join` gives for `directory` and the relative `file_name`.
pub uninterp spec fn joined_path(directory: &Path, file_name: Seq<char>) -> PathBuf;

/// Joins `file_name` onto `directory` (`Path::join`); the result is named by
/// [`joined_path`], a function of the two arguments alone.
#[verifier::external_body]
fn join_path(directory: &Path, file_name: &str) -> (r: PathBuf)
    ensures
        r == joined_path(directory, file_name@),
{
    directory.join(file_name)
}

/// The file name of one half of a migration.
pub fn migration_file_name(version: i64, description: &str, migration_type: MigrationType) -> (r:
    String)
    ensures
        r@ == migration_file_name_spec(version, description@, migration_type),
{
    let mut name = decimal_string(version);
    push_char(&mut name, '_');
    name.append(description);
    name.append(migration_type.suffix());
    name
}

/// The path of one half of a migration inside `directory`: the directory
/// joined with [`migration_file_name`].
pub fn migration_file_path(
    directory: &Path,
    version: i64,
    description: &str,
    migration_type: MigrationType,
) -> (r: PathBuf)
    ensures
        r == joined_path(directory, migration_file_name_spec(version, description@, migration_type)),
{
    let name = migration_file_name(version, description, migration_type);
    join_path(directory, name.as_str())
}

/// Reads the system clock (`SystemTime::now`). The reading depends on the
/// time, so nothing is stated of it.
#[verifier::external_body]
fn system_time_now() -> SystemTime {
    SystemTime::now()
}

/// How long after the Unix epoch `now` lies (`SystemTime::duration_since`
/// with `UNIX_EPOCH`); an error when `now` is before the epoch. `SystemTime`
/// is opaque here, so which of the two comes back is not stated.
#[verifier::external_body]
fn elapsed_since_unix_epoch(now: SystemTime) -> Result<Duration, SystemTimeError> {
    now.duration_since(std::time::UNIX_EPOCH)
}

/// The whole seconds of `d` (`Duration::as_secs`); of a duration made by
/// `Duration::from_secs(s)` that is `s`. What it gives for other durations is
/// not stated.
#[verifier::external_body]
fn whole_seconds(d: Duration) -> (r: u64)
    ensures
        forall|s: u64| d == #[trigger] duration_of_secs(s) ==> r == s,
{
    d.as_secs()
}

/// `i64::try_from` on a `u64`: the same number when it fits, an error otherwise.
#[verifier::external_body]
fn i64_try_from_u64(value: u64) -> (r: Result<i64, TryFromIntError>)
    ensures
        r is Ok <==> value <= i64::MAX,
        r matches Ok(v) ==> v == value,
{
    i64::try_from(value)
}

/// Whether `io::Error::kind` of `error` is `ErrorKind::AlreadyExists`.
pub uninterp spec fn io_error_already_exists(error: std::io::Error) -> bool;

/// Whether `error` reports that its target already exists
/// (`io::Error::kind` is `ErrorKind::AlreadyExists`); named by
/// [`io_error_already_exists`], a function of the error alone.
#[verifier::external_body]
fn is_already_exists(error: &std::io::Error) -> (r: bool)
    ensures
        r == io_error_already_exists(*error),
{
    error.kind() == std::io::ErrorKind::AlreadyExists
}

/// The owned copy `Path::to_path_buf` gives of `path`.
pub uninterp spec fn owned_path_of(path: &Path) -> PathBuf;

/// An owned copy of `path` (`Path::to_path_buf`); named by [`owned_path_of`],
/// a function of the path alone.
#[verifier::external_body]
fn owned_path(path: &Path) -> (r: PathBuf)
    ensures
        r == owned_path_of(path),
{
    path.to_path_buf()
}

/// The migration version for a clock reading of `seconds` after the Unix
/// epoch: the same number, or `VersionOverflow` when it does not fit an `i64`.
pub fn version_from_seconds(seconds: u64) -> (r: Result<i64, CreateError>)
    ensures
        seconds <= i64::MAX ==> r == Ok::<i64, CreateError>(seconds as i64),
        seconds > i64::MAX ==> (r matches Err(CreateError::VersionOverflow { seconds: s, .. })
            && s == seconds),
{
    match i64_try_from_u64(seconds) {
        Ok(version) => Ok(version),
        Err(source) => Err(CreateError::VersionOverflow { seconds, source }),
    }
}

/// The migration version for the current time: the whole seconds since the
/// Unix epoch.
pub fn current_version() -> (r: Result<i64, CreateError>)
    ensures
        r matches Ok(v) ==> v >= 0,
        r matches Err(e) ==> (e is SystemTime || e is VersionOverflow),
        r matches Err(CreateError::VersionOverflow { seconds, .. }) ==> seconds > i64::MAX,
{
    let now = system_time_now();
    let elapsed = match elapsed_since_unix_epoch(now) {
        Ok(elapsed) => elapsed,
        Err(error) => return Err(CreateError::SystemTime(error)),
    };
    version_from_elapsed(elapsed)
}

/// The migration version for a clock reading `elapsed` after the Unix epoch:
/// its whole seconds, or `VersionOverflow` when they do not fit an `i64`. For
/// a reading of exactly `s` seconds the version is `s` itself.
pub fn version_from_elapsed(elapsed: Duration) -> (r: Result<i64, CreateError>)
    ensures
        forall|s: u64|
            elapsed == #[trigger] duration_of_secs(s) ==> (s <= i64::MAX ==> r == Ok::<
                i64,
                CreateError,
            >(s as i64)) && (s > i64::MAX ==> (r matches Err(
                CreateError::VersionOverflow { seconds, .. },
            ) && seconds == s)),
        r matches Ok(v) ==> v >= 0,
        r matches Err(e) ==> (e matches CreateError::VersionOverflow { seconds, .. } && seconds
            > i64::MAX),
{
    version_from_seconds(whole_seconds(elapsed))
}

/// The error for a file that could not be created at `path`: `FileExists`
/// when the failure says the file is already there, `CreateFile` otherwise.
pub fn file_creation_error(path: PathBuf, source: std::io::Error, already_exists: bool) -> (r:
    CreateError)
    ensures
        already_exists ==> r == (CreateError::FileExists { path }),
        !already_exists ==> r == (CreateError::CreateFile { path, source }),
{
    if already_exists {
        CreateError::FileExists { path }
    } else {
        CreateError::CreateFile { path, source }
    }
}

/// Classifies a failure to create the migration file at `path`.
pub fn create_file_error(path: &Path, source: std::io::Error) -> (r: CreateError)
    ensures
        io_error_already_exists(source) ==> r == (CreateError::FileExists {
            path: owned_path_of(path),
        }),
        !io_error_already_exists(source) ==> r == (CreateError::CreateFile {
            path: owned_path_of(path),
            source,
        }),
{
    let already_exists = is_already_exists(&source);
    file_creation_error(owned_path(path), source, already_exists)
}

/// The file pair of a migration with the given version and description in
/// `directory`, or the description's normalization error.
pub fn plan_migration(directory: &Path, version: i64, description: &str) -> (r: Result<
    CreatedMigration,
    CreateError,
>)
    ensures
        match r {
            Ok(m) => normalized_description(description@) matches Ok(words) && m.version_spec()
                == version && m.up_path_spec() == joined_path(
                directory,
                migration_file_name_spec(version, words, MigrationType::Up),
            ) && m.down_path_spec() == joined_path(
                directory,
                migration_file_name_spec(version, words, MigrationType::Down),
            ),
            Err(e) => normalized_description(description@) == Err::<Seq<char>, CreateError>(e),
        },
{
    let description = normalize_description(description)?;
    let up_path = migration_file_path(directory, version, description.as_str(), MigrationType::Up);
    let down_path = migration_file_path(
        directory,
        version,
        description.as_str(),
        MigrationType::Down,
    );
    Ok(CreatedMigration { up_path, down_path, version })
}

/// Reads the clock and plans the migration file pair for `description` in
/// `directory`; the files themselves are not touched.
pub fn prepare_migration(directory: &Path, description: &str) -> (r: Result<
    CreatedMigration,
    CreateError,
>)
    ensures
        match r {
            Ok(m) => normalized_description(description@) matches Ok(words) && m.version_spec()
                >= 0 && m.up_path_spec() == joined_path(
                directory,
                migration_file_name_spec(m.version_spec(), words, MigrationType::Up),
            ) && m.down_path_spec() == joined_path(
                directory,
                migration_file_name_spec(m.version_spec(), words, MigrationType::Down),
            ),
            Err(e) => e is SystemTime || e is VersionOverflow || normalized_description(
                description@,
            ) == Err::<Seq<char>, CreateError>(e),
        },
        r matches Err(CreateError::VersionOverflow { seconds, .. }) ==> seconds > i64::MAX,
{
    let version = current_version()?;
    plan_migration(directory, version, description)
}

} // verus!
