use user_service::errors::CustomError;
use user_service::startup::{startup, Stage};

#[test]
fn startup_connects_first() {
    assert_eq!(startup(false, &Vec::new()), Ok(Stage::Connect));
    assert_eq!(startup(true, &Vec::new()), Ok(Stage::Connect));
}

#[test]
fn failed_connection_is_a_database_error() {
    assert_eq!(startup(false, &vec![false]), Err(CustomError::DatabaseError));
    assert_eq!(startup(true, &vec![false, true, true]), Err(CustomError::DatabaseError));
}

#[test]
fn migration_follows_the_connection() {
    assert_eq!(startup(false, &vec![true]), Ok(Stage::Migrate));
    assert_eq!(startup(true, &vec![true]), Ok(Stage::Migrate));
}

#[test]
fn failed_migration_is_a_migration_error() {
    assert_eq!(startup(false, &vec![true, false]), Err(CustomError::MigrationError));
    assert_eq!(startup(true, &vec![true, false]), Err(CustomError::MigrationError));
}

#[test]
fn without_seeding_serving_follows_the_migration() {
    assert_eq!(startup(false, &vec![true, true]), Ok(Stage::Serve));
}

#[test]
fn with_seeding_the_seed_comes_before_serving() {
    assert_eq!(startup(true, &vec![true, true]), Ok(Stage::Seed));
    assert_eq!(startup(true, &vec![true, true, true]), Ok(Stage::Serve));
}

#[test]
fn failed_seeding_is_an_internal_server_error() {
    assert_eq!(startup(true, &vec![true, true, false]), Err(CustomError::InternalServerError));
}
