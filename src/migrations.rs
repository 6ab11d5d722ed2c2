pub mod migrate_v1_to_v2;
pub mod migrate_v2_to_v3;
pub mod profile_migrate;
