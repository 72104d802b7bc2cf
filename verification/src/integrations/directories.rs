//! The directory that something is started in.
use vstd::prelude::*;
use vstd::string::*;
use crate::error::{error_of, seen, ErrorCategory, WorkstateError, WorkstateErrorView};
use crate::text::join3;

verus! {

/// What is read of the home directory where no working directory is configured.
#[derive(Debug)]
pub struct HomeReading {
    pub exists: Result<bool, WorkstateError>,
    pub is_directory: Result<bool, WorkstateError>,
    pub canonical: Result<String, WorkstateError>,
}

/// What is read of a working directory: the one that is configured, in its canonical form, or the home
/// directory.
#[derive(Debug)]
pub enum DirectoryReading {
    Configured(Result<String, WorkstateError>),
    Home(HomeReading),
}

/// A directory of something could not be resolved.
pub open spec fn directory_failure(subject: Seq<char>, error: WorkstateErrorView) -> WorkstateErrorView {
    error.with("operation"@, "resolve "@ + subject + " working directory"@)
}

fn directory_error(subject: &str, error: WorkstateError) -> (r: WorkstateError)
    ensures
        r@ == directory_failure(subject@, error@),
{
    error.with_context("operation", join3("resolve ", subject, " working directory").as_str())
}

/// The home directory, which must be a directory.
pub open spec fn home_resolved(subject: Seq<char>, home: Seq<char>, reading: HomeReading) -> Result<
    Seq<char>,
    WorkstateErrorView,
> {
    match seen(reading.exists) {
        Err(error) => Err(error),
        Ok(exists) => {
            let directory = if exists {
                seen(reading.is_directory)
            } else {
                Ok(false)
            };
            match directory {
                Err(error) => Err(error),
                Ok(is_directory) => if !is_directory {
                    Err(
                        error_of(
                            ErrorCategory::Process,
                            "the default "@ + subject + " working directory is not a directory"@,
                        ).with("working_directory"@, home),
                    )
                } else {
                    match seen(reading.canonical) {
                        Err(error) => Err(directory_failure(subject, error)),
                        Ok(path) => Ok(path),
                    }
                },
            }
        },
    }
}

/// The directory that something is started in: the one that is configured, else the home directory.
pub open spec fn directory_resolved(
    subject: Seq<char>,
    home: Result<Seq<char>, WorkstateErrorView>,
    reading: DirectoryReading,
) -> Result<Seq<char>, WorkstateErrorView> {
    match home {
        Err(error) => Err(directory_failure(subject, error)),
        Ok(home) => match reading {
            DirectoryReading::Configured(resolved) => match seen(resolved) {
                Err(error) => Err(directory_failure(subject, error)),
                Ok(path) => Ok(path),
            },
            DirectoryReading::Home(reading) => home_resolved(subject, home, reading),
        },
    }
}

fn resolve_home(subject: &str, home: &str, reading: HomeReading) -> (r: Result<
    String,
    WorkstateError,
>)
    ensures
        seen(r) == home_resolved(subject@, home@, reading),
{
    let exists = match reading.exists {
        Err(error) => {
            return Err(error);
        },
        Ok(exists) => exists,
    };
    let is_directory = if exists {
        match reading.is_directory {
            Err(error) => {
                return Err(error);
            },
            Ok(is_directory) => is_directory,
        }
    } else {
        false
    };
    if !is_directory {
        return Err(
            WorkstateError::new(
                ErrorCategory::Process,
                join3(
                    "the default ",
                    subject,
                    " working directory is not a directory",
                ).as_str(),
            ).with_context("working_directory", home),
        );
    }
    match reading.canonical {
        Err(error) => Err(directory_error(subject, error)),
        Ok(path) => Ok(path),
    }
}

/// The directory that something is started in.
pub fn resolve_directory(
    subject: &str,
    home: Result<String, WorkstateError>,
    reading: DirectoryReading,
) -> (r: Result<String, WorkstateError>)
    ensures
        seen(r) == directory_resolved(subject@, seen(home), reading),
{
    let home = match home {
        Err(error) => {
            return Err(directory_error(subject, error));
        },
        Ok(home) => home,
    };
    match reading {
        DirectoryReading::Configured(resolved) => match resolved {
            Err(error) => Err(directory_error(subject, error)),
            Ok(path) => Ok(path),
        },
        DirectoryReading::Home(reading) => resolve_home(subject, home.as_str(), reading),
    }
}

/// A directory that an action names is where it leads; without one it is the home of the user, which has
/// to be a directory.
pub proof fn law_directory_is_the_named_one_or_home(
    subject: Seq<char>,
    home: Seq<char>,
    reading: HomeReading,
    resolved: Result<String, WorkstateError>,
    path: Seq<char>,
)
    ensures
        seen(resolved) == Ok::<Seq<char>, WorkstateErrorView>(path) ==> directory_resolved(
            subject,
            Ok(home),
            DirectoryReading::Configured(resolved),
        ) == Ok::<Seq<char>, WorkstateErrorView>(path),
        directory_resolved(subject, Ok(home), DirectoryReading::Home(reading)) is Ok <==> seen(
            reading.exists,
        ) == Ok::<bool, WorkstateErrorView>(true) && seen(reading.is_directory) == Ok::<
            bool,
            WorkstateErrorView,
        >(true) && seen(reading.canonical) is Ok,
        directory_resolved(subject, Ok(home), DirectoryReading::Home(reading)) matches Ok(found)
            ==> seen(reading.canonical) == Ok::<Seq<char>, WorkstateErrorView>(found),
{
}

} // verus!
