use std::io::{Error as IoError, ErrorKind};
use std::path::{Path, PathBuf};

use recomp::postgres::migration::{
    combine_migration_results, create_file_error, file_creation_error, MigrationFailure, migration_file_name, migration_file_path,
    normalize_description, plan_migration, prepare_migration, version_from_seconds, CreateError,
    MigrationType,
};
use recomp::text::decimal_string;

#[test]
fn normalize_description_accepts_common_name_shapes() {
    let normalized = match normalize_description("  Create users-table__v2  ") {
        Ok(normalized) => normalized,
        Err(error) => panic!("common migration name must normalize: {error:?}"),
    };

    assert_eq!(
        normalized, "create_users_table_v2",
        "normalization must produce SQLx-safe migration filenames"
    );
}

#[test]
fn normalize_description_rejects_empty_name() {
    let error = match normalize_description(" - _ ") {
        Ok(normalized) => panic!("empty name must be rejected, got: {normalized}"),
        Err(error) => error,
    };

    assert!(
        matches!(error, CreateError::EmptyDescription),
        "empty normalized names must return EmptyDescription"
    );
}

#[test]
fn normalize_description_rejects_path_separators() {
    let error = match normalize_description("foo/bar") {
        Ok(normalized) => panic!("path separator must be rejected, got: {normalized}"),
        Err(error) => error,
    };

    assert!(
        matches!(
            error,
            CreateError::InvalidDescriptionCharacter { character: '/' }
        ),
        "path separators must not be accepted in generated filenames"
    );
}

#[test]
fn migration_file_path_uses_reversible_suffixes() {
    let directory = Path::new("db/migrations/core");

    assert_eq!(
        migration_file_path(directory, 42, "create_users", MigrationType::Up),
        directory.join("42_create_users.up.sql"),
        "up migration path must use the SQLx reversible suffix"
    );
    assert_eq!(
        migration_file_path(directory, 42, "create_users", MigrationType::Down),
        directory.join("42_create_users.down.sql"),
        "down migration path must use the SQLx reversible suffix"
    );
}

#[test]
fn normalize_description_rejects_blank_name() {
    assert!(matches!(normalize_description(""), Err(CreateError::EmptyDescription)));
    assert!(matches!(normalize_description(" \t\n "), Err(CreateError::EmptyDescription)));
}

#[test]
fn normalize_description_reports_first_invalid_character() {
    assert!(matches!(
        normalize_description("a.b/c"),
        Err(CreateError::InvalidDescriptionCharacter { character: '.' })
    ));
}

#[test]
fn normalize_description_trims_unicode_white_space_only_at_the_ends() {
    assert_eq!(
        normalize_description("\u{a0}\u{3000}Add Index\u{2003}\u{b}").unwrap(),
        "add_index"
    );
    assert!(matches!(
        normalize_description("add\u{a0}index"),
        Err(CreateError::InvalidDescriptionCharacter { character: '\u{a0}' })
    ));
    assert!(matches!(
        normalize_description("add\u{b}index"),
        Err(CreateError::InvalidDescriptionCharacter { character: '\u{b}' })
    ));
}

#[test]
fn normalize_description_collapses_separator_runs() {
    assert_eq!(normalize_description("--A__b  -C--").unwrap(), "a_b_c");
    assert_eq!(normalize_description("x\ty\r\nz").unwrap(), "x_y_z");
    assert_eq!(normalize_description("ABC123").unwrap(), "abc123");
}

#[test]
fn normalize_description_rejects_non_ascii_letters() {
    assert!(matches!(
        normalize_description("caf\u{e9}"),
        Err(CreateError::InvalidDescriptionCharacter { character: '\u{e9}' })
    ));
}

#[test]
fn normalize_description_is_idempotent() {
    for description in ["  Create users-table__v2  ", "--A__b  -C--", "x", "a1_b2"] {
        let once = normalize_description(description).unwrap();
        let twice = normalize_description(&once).unwrap();
        assert_eq!(once, twice);
        assert!(!once.starts_with('_') && !once.ends_with('_') && !once.contains("__"));
        assert!(once
            .chars()
            .all(|c| c.is_ascii_lowercase() || c.is_ascii_digit() || c == '_'));
    }
}

#[test]
fn migration_file_name_renders_version_and_suffix() {
    assert_eq!(
        migration_file_name(20240101, "add_users", MigrationType::Up),
        "20240101_add_users.up.sql"
    );
    assert_eq!(migration_file_name(-7, "x", MigrationType::Down), "-7_x.down.sql");
    assert_eq!(MigrationType::Up.suffix(), ".up.sql");
    assert_eq!(MigrationType::Down.suffix(), ".down.sql");
    assert_eq!(MigrationType::Up.file_content(), "-- Add up migration script here\n");
    assert_eq!(
        MigrationType::Down.file_content(),
        "-- Add down migration script here\n"
    );
}

#[test]
fn decimal_string_matches_to_string() {
    for v in [0i64, 7, 10, 42, 1_700_000_000, -1, -10, i64::MAX, i64::MIN] {
        assert_eq!(decimal_string(v), v.to_string());
    }
}

#[test]
fn version_from_seconds_rejects_values_beyond_i64() {
    assert_eq!(version_from_seconds(1_700_000_000).unwrap(), 1_700_000_000);
    assert_eq!(version_from_seconds(i64::MAX as u64).unwrap(), i64::MAX);
    match version_from_seconds(i64::MAX as u64 + 1) {
        Err(CreateError::VersionOverflow { seconds, .. }) => {
            assert_eq!(seconds, i64::MAX as u64 + 1)
        }
        other => panic!("overflow must be rejected, got {other:?}"),
    }
}

#[test]
fn file_creation_errors_are_classified() {
    let path = Path::new("db/1_x.up.sql");
    let exists = create_file_error(path, IoError::new(ErrorKind::AlreadyExists, "exists"));
    assert!(matches!(exists, CreateError::FileExists { path: ref p } if p == path));
    let denied = create_file_error(path, IoError::new(ErrorKind::PermissionDenied, "denied"));
    assert!(matches!(denied, CreateError::CreateFile { path: ref p, .. } if p == path));
    let explicit = file_creation_error(PathBuf::from("a"), IoError::other("x"), true);
    assert!(matches!(explicit, CreateError::FileExists { .. }));
}

#[test]
fn plan_migration_names_both_halves() {
    let directory = Path::new("migrations");
    let planned = plan_migration(directory, 42, "Create Users").unwrap();
    assert_eq!(planned.version(), 42);
    assert_eq!(planned.up_path(), &directory.join("42_create_users.up.sql"));
    assert_eq!(planned.down_path(), &directory.join("42_create_users.down.sql"));
    assert!(matches!(
        plan_migration(directory, 42, "   "),
        Err(CreateError::EmptyDescription)
    ));
}

#[test]
fn prepare_migration_uses_the_current_time() {
    let directory = Path::new("migrations");
    let planned = prepare_migration(directory, "Create Users").unwrap();
    assert!(planned.version() > 0);
    assert_eq!(planned.up_path().parent(), Some(directory));
    assert!(matches!(
        prepare_migration(directory, "a|b"),
        Err(CreateError::InvalidDescriptionCharacter { character: '|' })
    ));
}

#[test]
fn migration_file_name_splits_back_at_the_first_underscore() {
    for version in [0i64, 42, -3, i64::MAX] {
        let name = migration_file_name(version, "add_users_v2", MigrationType::Up);
        let (prefix, rest) = name.split_once('_').unwrap();
        assert_eq!(prefix, version.to_string());
        assert_eq!(rest, "add_users_v2.up.sql");
    }
}

#[test]
fn create_error_messages_match_their_descriptions() {
    assert_eq!(CreateError::EmptyDescription.message(), "migration description is empty");
    assert_eq!(
        CreateError::InvalidDescriptionCharacter { character: '/' }.message(),
        "migration description contains invalid character '/'"
    );
    let overflow = version_from_seconds(u64::MAX).unwrap_err();
    assert_eq!(
        overflow.message(),
        format!("migration version {} does not fit into SQLx's i64 migration version", u64::MAX)
    );
    let path = PathBuf::from("db/1_x.up.sql");
    assert_eq!(
        CreateError::FileExists { path: path.clone() }.message(),
        "migration file already exists at db/1_x.up.sql"
    );
    assert_eq!(
        CreateError::CreateFile { path: path.clone(), source: IoError::other("x") }.message(),
        "migration file creation failed at db/1_x.up.sql"
    );
    assert_eq!(
        CreateError::WriteFile { path: path.clone(), source: IoError::other("x") }.message(),
        "migration file write failed at db/1_x.up.sql"
    );
    assert_eq!(
        CreateError::CreateDirectory { path: PathBuf::from("db"), source: IoError::other("x") }
            .message(),
        "migration directory creation failed at db"
    );
}

#[test]
fn planned_migration_clones_equal() {
    let planned = plan_migration(Path::new("m"), 1, "x").unwrap();
    assert_eq!(planned.clone(), planned);
}

#[test]
fn migration_results_combine_every_failure() {
    let ok: Result<(), &str> = Ok(());
    let closed: Result<(), u8> = Ok(());
    assert!(combine_migration_results(ok, closed).is_ok());
    assert!(matches!(
        combine_migration_results(Ok::<(), &str>(()), Err::<(), u8>(3)),
        Err(MigrationFailure::Close(3))
    ));
    assert!(matches!(
        combine_migration_results(Err::<(), &str>("m"), Ok::<(), u8>(())),
        Err(MigrationFailure::Migrate("m"))
    ));
    assert!(matches!(
        combine_migration_results(Err::<(), &str>("m"), Err::<(), u8>(4)),
        Err(MigrationFailure::MigrateAndClose { migrate: "m", close: 4 })
    ));
}
