//! The records of the login importer, as the host sees them.

use vstd::prelude::*;

verus! {

/// A browser profile, as the importer reports it.
#[derive(Debug, Clone, PartialEq, Eq)]
pub struct ImporterProfile {
    pub folder: String,
    pub name: String,
}

/// What describes an importer, as the importer reports it.
#[derive(Debug, Clone, PartialEq, Eq)]
pub struct ImporterMetadata {
    pub id: String,
    pub loaders: Vec<String>,
    pub instructions: String,
}

/// The outcome of the import of one login, as the importer reports it.
#[derive(Debug, Clone, PartialEq, Eq)]
pub enum ImportOutcome {
    Success(Login),
    Failure(LoginImportFailure),
}

/// A browser profile that logins can be imported from.
#[derive(Debug, Clone, PartialEq, Eq)]
pub struct ProfileInfo {
    pub id: String,
    pub name: String,
}

/// An imported login.
#[derive(Debug, Clone, PartialEq, Eq)]
pub struct Login {
    pub url: String,
    pub username: String,
    pub password: String,
    pub note: String,
}

/// A login that could not be imported.
#[derive(Debug, Clone, PartialEq, Eq)]
pub struct LoginImportFailure {
    pub url: String,
    pub username: String,
    pub error: String,
}

/// The outcome of the import of one login: the login, or the failure.
#[derive(Debug, Clone, PartialEq, Eq)]
pub struct LoginImportResult {
    pub login: Option<Login>,
    pub failure: Option<LoginImportFailure>,
}

/// What describes an importer.
#[derive(Debug, Clone, PartialEq, Eq)]
pub struct NativeImporterMetadata {
    pub id: String,
    pub loaders: Vec<String>,
    pub instructions: String,
}

impl ProfileInfo {
    /// The profile for what the importer found: its folder is its id.
    pub fn from(profile: ImporterProfile) -> (seen: ProfileInfo)
        ensures
            seen.id == profile.folder,
            seen.name == profile.name,
    {
        ProfileInfo { id: profile.folder, name: profile.name }
    }
}

impl NativeImporterMetadata {
    /// The description of an importer, as the host sees it.
    pub fn from(metadata: ImporterMetadata) -> (seen: NativeImporterMetadata)
        ensures
            seen.id == metadata.id,
            seen.loaders == metadata.loaders,
            seen.instructions == metadata.instructions,
    {
        NativeImporterMetadata {
            id: metadata.id,
            loaders: metadata.loaders,
            instructions: metadata.instructions,
        }
    }
}

impl LoginImportResult {
    /// The record for an outcome: exactly one of its two parts is there.
    pub fn from(outcome: ImportOutcome) -> (result: LoginImportResult)
        ensures
            match outcome {
                ImportOutcome::Success(login) => result.login == Some(login) && result.failure
                    is None,
                ImportOutcome::Failure(failure) => result.login is None && result.failure == Some(
                    failure,
                ),
            },
    {
        match outcome {
            ImportOutcome::Success(login) => LoginImportResult { login: Some(login), failure: None },
            ImportOutcome::Failure(failure) => LoginImportResult {
                login: None,
                failure: Some(failure),
            },
        }
    }
}

/// The importers that are supported, each under the name of its browser, as
/// the host sees them: in the order in which they were reported.
pub fn get_metadata(reported: Vec<(String, ImporterMetadata)>) -> (seen: Vec<
    (String, NativeImporterMetadata),
>)
    ensures
        seen@.len() == reported@.len(),
        forall|i: int|
            0 <= i < seen@.len() ==> (#[trigger] seen@[i]).0 == reported@[i].0 && seen@[i].1.id
                == reported@[i].1.id && seen@[i].1.loaders == reported@[i].1.loaders
                && seen@[i].1.instructions == reported@[i].1.instructions,
{
    let mut reported = reported;
    let ghost all = reported@;
    let mut seen: Vec<(String, NativeImporterMetadata)> = Vec::new();
    while reported.len() > 0
        invariant
            reported@.len() + seen@.len() == all.len(),
            forall|i: int| 0 <= i < reported@.len() ==> reported@[i] == all[seen@.len() + i],
            forall|i: int|
                0 <= i < seen@.len() ==> (#[trigger] seen@[i]).0 == all[i].0 && seen@[i].1.id
                    == all[i].1.id && seen@[i].1.loaders == all[i].1.loaders
                    && seen@[i].1.instructions == all[i].1.instructions,
        decreases reported@.len(),
    {
        let (browser, metadata) = reported.remove(0);
        seen.push((browser, NativeImporterMetadata::from(metadata)));
    }
    seen
}

/// The profiles of a browser that logins can be imported from, as the host
/// sees them, or the reason why there are none.
pub fn get_available_profiles(reported: Result<Vec<ImporterProfile>, String>) -> (seen: Result<
    Vec<ProfileInfo>,
    String,
>)
    ensures
        match reported {
            Ok(profiles) => seen matches Ok(list) && list@.len() == profiles@.len() && forall|
                i: int,
            |
                0 <= i < list@.len() ==> (#[trigger] list@[i]).id@ == profiles@[i].folder@
                    && list@[i].name@ == profiles@[i].name@,
            Err(reason) => seen == Err::<Vec<ProfileInfo>, String>(reason),
        },
{
    match reported {
        Ok(profiles) => {
            let mut list: Vec<ProfileInfo> = Vec::new();
            let mut i: usize = 0;
            while i < profiles.len()
                invariant
                    i <= profiles@.len(),
                    list@.len() == i,
                    forall|j: int|
                        0 <= j < i ==> (#[trigger] list@[j]).id@ == profiles@[j].folder@
                            && list@[j].name@ == profiles@[j].name@,
                decreases profiles@.len() - i,
            {
                list.push(
                    ProfileInfo { id: profiles[i].folder.clone(), name: profiles[i].name.clone() },
                );
                i += 1;
            }
            Ok(list)
        },
        Err(reason) => Err(reason),
    }
}

} // verus!
