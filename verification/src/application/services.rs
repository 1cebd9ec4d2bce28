//! The settings of a run, and the makers of its parts.

use crate::domain::entities::WebServerType;
use crate::infrastructure::config_discovery::FileSystemConfigDiscovery;
use crate::infrastructure::network::HttpNetworkService;
use crate::infrastructure::notifications::ConsoleNotificationService;
use crate::infrastructure::repositories::FileIpRepository;
use crate::infrastructure::webservers::handler::Handler;
use vstd::prelude::*;

verus! {

/// Makes the parts of a run.
#[derive(Debug, Clone, Copy)]
pub struct ServiceFactory;

impl ServiceFactory {
    /// The address records kept under `storage_dir`.
    pub fn create_ip_repository(storage_dir: String) -> (repository: FileIpRepository)
        ensures
            repository@ == storage_dir@,
    {
        FileIpRepository::new(storage_dir)
    }

    /// The strategy for a family. The families without a strategy of their
    /// own are handled as nginx.
    pub fn create_web_server_handler(server_type: WebServerType, backup_dir: Option<String>) -> (h:
        Handler)
        ensures
            h.dialect_spec() == server_type.dialect_spec(),
            h matches Handler::Nginx(n) ==> n.backup_dir() == backup_dir,
    {
        Handler::for_type(server_type, backup_dir)
    }

    /// The search for the public address, from its first source.
    pub fn create_network_service() -> (service: HttpNetworkService)
        ensures
            service.next_spec() == 0,
    {
        HttpNetworkService::new()
    }

    /// The messages for the console.
    pub fn create_notification_service(verbose: bool) -> (service: ConsoleNotificationService)
        ensures
            service.verbose_spec() == verbose,
    {
        ConsoleNotificationService::new(verbose)
    }

    /// The discovery of configuration documents.
    pub fn create_config_discovery_service() -> FileSystemConfigDiscovery {
        FileSystemConfigDiscovery::new()
    }
}

/// The settings of a run.
#[derive(Debug, Clone)]
pub struct AppConfig {
    /// Where the address records are kept.
    pub storage_dir: String,
    /// Where backups go, where they do not go beside the documents.
    pub backup_dir: Option<String>,
    /// The server is not reloaded after an edit.
    pub no_reload: bool,
    /// More is told of what is done.
    pub verbose: bool,
    /// For how many days backups are kept.
    pub backup_retention_days: u16,
    /// How many backups are kept.
    pub max_backups: u16,
}

impl Default for AppConfig {
    /// Records under `/var/lib/ddns-updater`, backups beside the documents,
    /// reloads, few words, ten backups kept for thirty days.
    fn default() -> (c: AppConfig)
        ensures
            c.storage_dir@ == "/var/lib/ddns-updater"@,
            c.backup_dir is None,
            !c.no_reload,
            !c.verbose,
            c.backup_retention_days == 30,
            c.max_backups == 10,
    {
        AppConfig {
            storage_dir: "/var/lib/ddns-updater".to_owned(),
            backup_dir: None,
            no_reload: false,
            verbose: false,
            backup_retention_days: 30,
            max_backups: 10,
        }
    }
}

impl AppConfig {
    /// The default settings.
    pub fn new() -> (c: AppConfig)
        ensures
            c.storage_dir@ == "/var/lib/ddns-updater"@,
            c.backup_dir is None,
            !c.no_reload,
            !c.verbose,
            c.backup_retention_days == 30,
            c.max_backups == 10,
    {
        let c: AppConfig = Default::default();
        c
    }

    /// The same settings, with the records kept under `dir`.
    pub fn with_storage_dir(self, dir: String) -> (c: AppConfig)
        ensures
            c == (AppConfig { storage_dir: dir, ..self }),
    {
        AppConfig { storage_dir: dir, ..self }
    }

    /// The same settings, with backups sent to `dir`, or beside the
    /// documents where none is given.
    pub fn with_backup_dir(self, dir: Option<String>) -> (c: AppConfig)
        ensures
            c == (AppConfig { backup_dir: dir, ..self }),
    {
        AppConfig { backup_dir: dir, ..self }
    }

    /// The same settings, with the reload left out or not.
    pub fn with_no_reload(self, no_reload: bool) -> (c: AppConfig)
        ensures
            c == (AppConfig { no_reload, ..self }),
    {
        AppConfig { no_reload, ..self }
    }

    /// The same settings, with more told or less.
    pub fn with_verbose(self, verbose: bool) -> (c: AppConfig)
        ensures
            c == (AppConfig { verbose, ..self }),
    {
        AppConfig { verbose, ..self }
    }

    /// The same settings, with `max_backups` backups kept for `days` days.
    pub fn with_backup_retention(self, days: u16, max_backups: u16) -> (c: AppConfig)
        ensures
            c == (AppConfig { backup_retention_days: days, max_backups, ..self }),
    {
        AppConfig { backup_retention_days: days, max_backups, ..self }
    }
}

} // verus!
