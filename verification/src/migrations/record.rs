//! The migration record and the row under which it is persisted.

use crate::repository::{RepositoryError, RepositoryItem};
use crate::version::Version;
use vstd::prelude::*;
use vstd::std_specs::convert::FromSpecImpl;

verus! {

/// The version of the schema that this build of the service expects.
pub const VERSION: &'static str = "0.2.3";

/// The single migration record: the version the schema has reached, if any
/// step ever completed, and the version it is being taken to.
#[derive(Clone, Copy, Debug, PartialEq, Eq, Structural)]
pub struct Migration {
    pub current_version: Option<Version>,
    pub target_version: Version,
}

/// The row that persists the record, its versions written out as text.
#[derive(Debug)]
pub struct MigrationData {
    pub id: i64,
    pub current_version: Option<String>,
    pub target_version: Option<String>,
}

/// The release version that an optional text stands for, `fallback` where
/// there is no text.
pub open spec fn version_or(text: Option<String>, fallback: Version) -> Option<Version> {
    match text {
        Some(t) => Version::parsed(t@),
        None => Some(fallback),
    }
}

/// Whether an optional text, where present, is a release version.
pub open spec fn readable(text: Option<String>) -> bool {
    text matches Some(t) ==> Version::parsed(t@).is_some()
}

impl Migration {
    /// The version expected by this build, as a value.
    pub open spec fn build() -> Version {
        Version { major: 0, minor: 2, patch: 3 }
    }

    /// The version of this build.
    pub fn build_version() -> (version: Version)
        ensures
            version == Migration::build(),
    {
        Version::new(0, 2, 3)
    }

    /// The record that two optional texts stand for: no current text is an
    /// absent current version, no target text is the version of this build.
    pub open spec fn of_texts(current: Option<String>, target: Option<String>) -> Migration
        recommends
            readable(current),
            readable(target),
    {
        Migration {
            current_version: match current {
                Some(t) => Version::parsed(t@),
                None => None,
            },
            target_version: version_or(target, Migration::build()).unwrap(),
        }
    }

    /// The record that two optional texts stand for, where each of them that
    /// is present is a release version.
    pub open spec fn read(current: Option<String>, target: Option<String>) -> Option<Migration> {
        if readable(current) && readable(target) {
            Some(Migration::of_texts(current, target))
        } else {
            None
        }
    }

    /// The version from which a failure of this record is reported: the
    /// current version, `0.0.0` where it is absent.
    pub open spec fn origin(self) -> Version {
        match self.current_version {
            Some(v) => v,
            None => Version::origin(),
        }
    }

    /// The error that reports a failure to persist or apply this record.
    pub open spec fn failure(self) -> RepositoryError {
        RepositoryError::MigrationFailed(self.origin(), self.target_version)
    }

    /// The row that persists this record.
    pub open spec fn persisted(self, data: MigrationData) -> bool {
        &&& data.id == 0
        &&& match self.current_version {
            Some(v) => data.current_version matches Some(t) && t@ == v.text(),
            None => data.current_version.is_none(),
        }
        &&& data.target_version matches Some(t) && t@ == self.target_version.text()
    }

    /// Builds the record from the texts of a row. Both texts, where present,
    /// must be release versions.
    pub fn new(current_version: Option<String>, target_version: Option<String>) -> (record:
        Migration)
        requires
            readable(current_version),
            readable(target_version),
        ensures
            record == Migration::of_texts(current_version, target_version),
    {
        let current = match current_version {
            Some(text) => Version::parse(text.as_str()),
            None => None,
        };
        let target = match target_version {
            Some(text) => match Version::parse(text.as_str()) {
                Some(version) => version,
                None => Migration::build_version(),
            },
            None => Migration::build_version(),
        };
        Migration { current_version: current, target_version: target }
    }

    /// Builds the record from the texts of a row, or `None` where one of
    /// them is present and is no release version.
    pub fn checked(current_version: Option<String>, target_version: Option<String>) -> (record:
        Option<Migration>)
        ensures
            record == Migration::read(current_version, target_version),
    {
        let current_ok = match &current_version {
            Some(text) => Version::parse(text.as_str()).is_some(),
            None => true,
        };
        let target_ok = match &target_version {
            Some(text) => Version::parse(text.as_str()).is_some(),
            None => true,
        };
        if current_ok && target_ok {
            Some(Migration::new(current_version, target_version))
        } else {
            None
        }
    }

    /// Reads the record out of its row, or `None` where a text of the row is
    /// no release version.
    pub fn from_data(data: MigrationData) -> (record: Option<Migration>)
        ensures
            record == Migration::read(data.current_version, data.target_version),
    {
        Migration::checked(data.current_version, data.target_version)
    }

    /// The record of a schema that is to be taken to `version` and on which
    /// no step has completed.
    pub fn toward(version: Version) -> (record: Migration)
        ensures
            record == (Migration { current_version: None, target_version: version }),
    {
        Migration { current_version: None, target_version: version }
    }

    /// Writes the record out as the row that persists it. The row reads
    /// back as the record.
    pub fn to_data(&self) -> (data: MigrationData)
        ensures
            self.persisted(data),
            Migration::read(data.current_version, data.target_version) == Some(*self),
    {
        let current = match self.current_version {
            Some(version) => Some(version.to_string()),
            None => None,
        };
        MigrationData {
            id: 0,
            current_version: current,
            target_version: Some(self.target_version.to_string()),
        }
    }

    /// The error under which a failure of this record is reported.
    pub fn into_error(&self) -> (error: RepositoryError)
        ensures
            error == self.failure(),
    {
        let from = match self.current_version {
            Some(version) => version,
            None => Version::zero(),
        };
        RepositoryError::MigrationFailed(from, self.target_version)
    }
}

impl From<Version> for Migration {
    /// The record of a schema that is to be taken to a version and on which
    /// no step has completed.
    fn from(version: Version) -> (record: Migration) {
        Migration::toward(version)
    }
}

impl FromSpecImpl<Version> for Migration {
    open spec fn obeys_from_spec() -> bool {
        true
    }

    open spec fn from_spec(version: Version) -> Migration {
        Migration { current_version: None, target_version: version }
    }
}

impl From<Migration> for RepositoryError {
    /// The failure of a migration between the versions of the record.
    fn from(record: Migration) -> (error: RepositoryError) {
        record.into_error()
    }
}

impl FromSpecImpl<Migration> for RepositoryError {
    open spec fn obeys_from_spec() -> bool {
        true
    }

    open spec fn from_spec(record: Migration) -> RepositoryError {
        record.failure()
    }
}

impl Clone for MigrationData {
    fn clone(&self) -> (copy: Self)
        ensures
            copy == *self,
    {
        MigrationData {
            id: self.id,
            current_version: self.current_version.clone(),
            target_version: self.target_version.clone(),
        }
    }
}

impl RepositoryItem for MigrationData {
    fn masked_columns(_is_admin: bool) -> (columns: Vec<String>)
        ensures
            columns.deep_view() == seq!["id"@],
    {
        let columns = vec!["id".to_string()];
        assert(columns.deep_view() =~= seq!["id"@]);
        columns
    }

    fn saved_columns() -> (columns: Vec<String>)
        ensures
            columns.deep_view() == seq!["current_version"@, "target_version"@],
    {
        let columns = vec!["current_version".to_string(), "target_version".to_string()];
        assert(columns.deep_view() =~= seq!["current_version"@, "target_version"@]);
        columns
    }

    fn all_columns() -> (columns: Vec<String>)
        ensures
            columns.deep_view() == seq!["id"@, "current_version"@, "target_version"@],
    {
        let columns = vec![
            "id".to_string(),
            "current_version".to_string(),
            "target_version".to_string(),
        ];
        assert(columns.deep_view() =~= seq!["id"@, "current_version"@, "target_version"@]);
        columns
    }

    fn table_name() -> (name: String)
        ensures
            name@ == "migrations"@,
    {
        "migrations".to_string()
    }
}

} // verus!
