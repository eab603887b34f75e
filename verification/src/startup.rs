//! The order of startup: connect, migrate, seed in development mode, serve.

use vstd::prelude::*;
use crate::errors::CustomError;

verus! {

/// One stage of startup.
#[derive(Debug, Clone, Copy, PartialEq, Eq, Structural)]
pub enum Stage {
    /// Open the connection pool.
    Connect,
    /// Apply the pending migrations.
    Migrate,
    /// Insert the sample rows.
    Seed,
    /// Bind the port and accept requests.
    Serve,
}

/// What startup does next. `passed` holds, for each stage that has been run,
/// whether it went through, in the order connect, migrate, seed. A failed
/// stage ends startup with its own error; seeding is a stage only where
/// `seeding` is set; serving comes when every stage before it went through.
pub open spec fn plan_startup(seeding: bool, passed: Seq<bool>) -> Result<Stage, CustomError> {
    if passed.len() == 0 {
        Ok(Stage::Connect)
    } else if !passed[0] {
        Err(CustomError::DatabaseError)
    } else if passed.len() == 1 {
        Ok(Stage::Migrate)
    } else if !passed[1] {
        Err(CustomError::MigrationError)
    } else if !seeding {
        Ok(Stage::Serve)
    } else if passed.len() == 2 {
        Ok(Stage::Seed)
    } else if !passed[2] {
        Err(CustomError::InternalServerError)
    } else {
        Ok(Stage::Serve)
    }
}

/// The next stage of startup, or the error that ends it.
pub fn startup(seeding: bool, passed: &Vec<bool>) -> (next: Result<Stage, CustomError>)
    ensures
        next == plan_startup(seeding, passed@),
{
    if passed.len() == 0 {
        return Ok(Stage::Connect);
    }
    if !passed[0] {
        return Err(CustomError::DatabaseError);
    }
    if passed.len() == 1 {
        return Ok(Stage::Migrate);
    }
    if !passed[1] {
        return Err(CustomError::MigrationError);
    }
    if !seeding {
        return Ok(Stage::Serve);
    }
    if passed.len() == 2 {
        return Ok(Stage::Seed);
    }
    if !passed[2] {
        return Err(CustomError::InternalServerError);
    }
    Ok(Stage::Serve)
}

/// Requests are served only after the pool was opened and the migrations
/// were applied, both with success, and in development mode only after the
/// seeding went through as well. Every error of startup has status 500.
pub proof fn serving_follows_migration(seeding: bool, passed: Seq<bool>)
    ensures
        plan_startup(seeding, passed) == Ok::<Stage, CustomError>(Stage::Serve) ==> {
            &&& passed.len() >= 2
            &&& passed[0]
            &&& passed[1]
            &&& seeding ==> passed.len() >= 3 && passed[2]
        },
        plan_startup(seeding, passed) is Err ==> plan_startup(
            seeding,
            passed,
        )->Err_0.spec_status() == 500,
{
}

} // verus!
