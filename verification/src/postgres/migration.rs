//! Postgres migration helpers.

mod create;
mod name_laws;
mod run;

pub use create::{
    char_debug_text, collapse_separators, create_error_message, create_file_error, current_version, file_creation_error, first_invalid_index, io_error_already_exists, joined_path, owned_path_of, path_display_text, is_description_char, is_separator,
    migration_file_name, migration_file_name_spec, migration_file_path, normalize_description,
    normalized_description, plan_migration, prepare_migration, version_from_elapsed, version_from_seconds, CreateError, CreatedMigration, MigrationType,
};
pub use name_laws::{
    is_file_name_safe, is_name_char, law_file_name_splits_at_first_underscore,
    law_normalization_is_idempotent, is_plain_word_char, law_plain_words_normalize,
    plain_words_normalized,
    law_normalized_description_is_file_name_safe,
};
pub use run::{combine_migration_results, MigrationFailure};
