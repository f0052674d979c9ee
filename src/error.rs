use vstd::prelude::*;

verus! {

#[verifier::external_type_specification]
#[verifier::external_body]
pub struct ExIoError(std::io::Error);

/// Why a server could not be brought up.
#[derive(Debug)]
pub enum PsqlServerError {
    CouldNotFindPostgresCommand,
    CouldNotFindInitDbCommand,
    CouldNotFindCreateDbCommand,
    CouldNotFindPgIsReadyCommand,
    InitDbFailed,
    CreateDbFailed,
    PostgresFailed,
    IoError(std::io::Error),
}

/// The text that describes an error of every kind but `IoError`, whose text
/// comes from the operating system.
pub open spec fn message_of(e: PsqlServerError) -> Seq<char> {
    match e {
        PsqlServerError::CouldNotFindPostgresCommand => "Could not find `postgres` command"@,
        PsqlServerError::CouldNotFindInitDbCommand => "Could not find `initdb` command"@,
        PsqlServerError::CouldNotFindCreateDbCommand => "Could not find `createdb` command"@,
        PsqlServerError::CouldNotFindPgIsReadyCommand => "Could not find `pg_isready` command"@,
        PsqlServerError::InitDbFailed => "initdb failed"@,
        PsqlServerError::CreateDbFailed => "createdb failed"@,
        PsqlServerError::PostgresFailed => "postgres failed"@,
        PsqlServerError::IoError(_) => Seq::empty(),
    }
}

/// Relies on `<std::io::Error as Display>::fmt`, through `format!`, for the
/// operating system's description of the error.
#[verifier::external_body]
fn io_error_text(e: &std::io::Error) -> (r: String) {
    format!("{}", e)
}

impl PsqlServerError {
    /// A one-line description of the error, for people.
    pub fn message(&self) -> (r: String)
        ensures
            !(*self is IoError) ==> r@ == message_of(*self),
    {
        match self {
            PsqlServerError::CouldNotFindPostgresCommand => "Could not find `postgres` command".to_owned(),
            PsqlServerError::CouldNotFindInitDbCommand => "Could not find `initdb` command".to_owned(),
            PsqlServerError::CouldNotFindCreateDbCommand => "Could not find `createdb` command".to_owned(),
            PsqlServerError::CouldNotFindPgIsReadyCommand => "Could not find `pg_isready` command".to_owned(),
            PsqlServerError::InitDbFailed => "initdb failed".to_owned(),
            PsqlServerError::CreateDbFailed => "createdb failed".to_owned(),
            PsqlServerError::PostgresFailed => "postgres failed".to_owned(),
            PsqlServerError::IoError(e) => io_error_text(e),
        }
    }
}

} // verus!
