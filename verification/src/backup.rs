//! The rules of the backups of the store: how a backup is named, which
//! kind of store can be backed up, and which backups are old enough to
//! go.

use vstd::prelude::*;
use vstd::string::*;
use crate::error::{config_error, GovernanceError};
use crate::text::{contains, contains_text};

verus! {

/// The seconds of a day.
pub const SECONDS_PER_DAY: i64 = 86_400;

/// The kind of a store.
#[derive(Debug, Clone, Copy, PartialEq, Eq, Structural)]
pub enum DatabaseKind {
    Sqlite,
    Postgres,
    Unknown,
}

/// The store that is backed up.
#[derive(Debug)]
pub struct Database {
    pub kind: DatabaseKind,
    /// Where the store is found.
    pub url: String,
}

impl Database {
    /// Whether the store is an SQLite file.
    pub fn is_sqlite(&self) -> (yes: bool)
        ensures
            yes == (self.kind == DatabaseKind::Sqlite),
    {
        self.kind == DatabaseKind::Sqlite
    }

    /// Whether the store is a PostgreSQL server.
    pub fn is_postgres(&self) -> (yes: bool)
        ensures
            yes == (self.kind == DatabaseKind::Postgres),
    {
        self.kind == DatabaseKind::Postgres
    }
}

/// The settings of the backups.
#[derive(Debug)]
pub struct BackupConfig {
    /// The directory of the backups.
    pub directory: String,
    /// How many days a backup is kept.
    pub retention_days: u32,
    /// Whether backups are compressed.
    pub compression: bool,
    /// The seconds between two backups.
    pub interval: u64,
    /// Whether backups are made by themselves.
    pub enabled: bool,
}

impl Default for BackupConfig {
    fn default() -> (config: BackupConfig)
        ensures
            config.directory@ == "/opt/bllvm-commons/backups"@,
            config.retention_days == 30,
            config.compression,
            config.interval == 86_400,
            config.enabled,
    {
        BackupConfig {
            directory: "/opt/bllvm-commons/backups".to_owned(),
            retention_days: 30,
            compression: true,
            interval: 86_400,
            enabled: true,
        }
    }
}

/// The name of the backup made at a time, given as its text.
pub open spec fn backup_name(timestamp: Seq<char>) -> Seq<char> {
    "governance_backup_"@ + timestamp + ".db"@
}

/// The time before which a backup is old enough to go.
pub open spec fn retention_cutoff(now: i64, retention_days: u32) -> int {
    now - retention_days * SECONDS_PER_DAY
}

/// Whether an entry of the backup directory goes: it is a file, its name
/// says that it is a backup, its time of change is known, and that time
/// lies before the cutoff.
pub open spec fn backup_goes(
    name: Seq<char>,
    is_file: bool,
    modified: Option<i64>,
    now: i64,
    retention_days: u32,
) -> bool {
    &&& is_file
    &&& contains_text(name, "governance_backup_"@)
    &&& modified matches Some(time)
    &&& time < retention_cutoff(now, retention_days)
}

/// Makes and removes backups.
pub struct BackupManager {
    pub database: Database,
    pub config: BackupConfig,
}

impl BackupManager {
    /// A manager for a store with the given settings.
    pub fn new(database: Database, config: BackupConfig) -> (manager: BackupManager)
        ensures
            manager.database == database,
            manager.config == config,
    {
        BackupManager { database, config }
    }

    /// The name of the backup made at a time, given as its text.
    pub fn backup_filename(timestamp: &str) -> (name: String)
        ensures
            name@ == backup_name(timestamp@),
    {
        crate::text::concat3("governance_backup_", timestamp, ".db")
    }

    /// Whether the store can be backed up: an SQLite file can, any other
    /// kind of store is a configuration error.
    pub fn check_backup_possible(&self) -> (result: Result<(), GovernanceError>)
        ensures
            match result {
                Ok(_) => self.database.kind == DatabaseKind::Sqlite,
                Err(e) => e is ConfigError && self.database.kind != DatabaseKind::Sqlite,
            },
    {
        if self.database.is_sqlite() {
            Ok(())
        } else if self.database.is_postgres() {
            Err(config_error("PostgreSQL backups require external pg_dump tool"))
        } else {
            Err(config_error("Unknown database type for backup"))
        }
    }

    /// Whether an entry of the backup directory is old enough to go.
    pub fn should_delete(&self, name: &str, is_file: bool, modified: Option<i64>, now: i64) -> (goes:
        bool)
        ensures
            goes == backup_goes(name@, is_file, modified, now, self.config.retention_days),
    {
        if !is_file || !contains(name, "governance_backup_") {
            return false;
        }
        match modified {
            Some(time) => {
                let cutoff: i128 = (now as i128) - (self.config.retention_days as i128) * 86_400;
                (time as i128) < cutoff
            },
            None => false,
        }
    }
}

} // verus!
