use ddns_updater::cli::args::Args;
use ddns_updater::domain::entities::{DomainError, IpEntry, ValidationResult, WebServerType};
use ddns_updater::config::nginx::hostname_of_comment;
use ddns_updater::domain::value_objects::{
    accepts_char, BackupRetention, BackupRetentionError, ConfigPath, ConfigPathError, Hostname,
    HostnameError, PathKind,
};
use ddns_updater::infrastructure::config_discovery::{FileSystemConfigDiscovery, GlobKind};
use ddns_updater::infrastructure::network::{HttpNetworkService, Lookup};
use ddns_updater::infrastructure::notifications::{
    ConsoleNotificationService, LogNotificationService,
};
use ddns_updater::infrastructure::repositories::FileIpRepository;
use ddns_updater::storage::ip_storage::{check_and_update_ip, get_ip_file_path};
use std::str::FromStr;

fn args(config: Option<&str>, dir: Option<&str>, pattern: &str, backup: Option<&str>) -> Args {
    Args {
        host: "host.example".to_string(),
        nginx_config: config.map(|c| c.to_string()),
        config_dir: dir.map(|d| d.to_string()),
        pattern: pattern.to_string(),
        backup_dir: backup.map(|b| b.to_string()),
        no_reload: false,
        verbose: false,
    }
}

#[test]
fn hostname_accepts_names_of_hosts() {
    for name in ["example.com", "a", "sub-domain.example_1.org", "m\u{fc}nchen.de"] {
        let hostname = Hostname::new(name.to_string()).unwrap();
        assert_eq!(hostname.as_str(), name);
        assert_eq!(hostname.into_string(), name);
    }
    assert!(Hostname::new("a".repeat(253)).is_ok());
}

#[test]
fn hostname_refuses_what_is_no_name() {
    assert!(matches!(Hostname::new(String::new()), Err(HostnameError::Empty)));
    assert!(matches!(Hostname::new("a".repeat(254)), Err(HostnameError::TooLong(254))));
    assert!(matches!(
        Hostname::new("\u{fc}".repeat(127)),
        Err(HostnameError::TooLong(254))
    ));
    for name in ["exa mple.com", "example.com\n", "a/b", "host;"] {
        match Hostname::new(name.to_string()) {
            Err(HostnameError::InvalidCharacters(text)) => assert_eq!(text, name),
            other => panic!("{:?} was not refused for its characters: {:?}", name, other),
        }
    }
}

#[test]
fn hostname_errors_have_messages() {
    assert_eq!(HostnameError::Empty.message(), "Hostname cannot be empty");
    assert_eq!(
        HostnameError::TooLong(254).message(),
        "Hostname too long: 254 characters (max 253)"
    );
    assert_eq!(HostnameError::TooLong(0).message(), "Hostname too long: 0 characters (max 253)");
    assert_eq!(
        HostnameError::TooLong(1000007).message(),
        "Hostname too long: 1000007 characters (max 253)"
    );
    assert_eq!(
        HostnameError::InvalidCharacters("a b".to_string()).message(),
        "Invalid characters in hostname: a b"
    );
}

#[test]
fn backup_retention_needs_a_count_and_an_age() {
    assert_eq!(BackupRetention::default(), BackupRetention { max_backups: 10, max_age_days: 30 });
    assert_eq!(
        BackupRetention::new(3, 7),
        Ok(BackupRetention { max_backups: 3, max_age_days: 7 })
    );
    assert_eq!(BackupRetention::new(0, 7), Err(BackupRetentionError::InvalidBackupCount));
    assert_eq!(BackupRetention::new(3, 0), Err(BackupRetentionError::InvalidAgeDays));
    assert_eq!(BackupRetention::new(0, 0), Err(BackupRetentionError::InvalidBackupCount));
    assert_eq!(
        BackupRetentionError::InvalidBackupCount.message(),
        "Backup count must be greater than 0"
    );
    assert_eq!(
        BackupRetentionError::InvalidAgeDays.message(),
        "Age in days must be greater than 0"
    );
}

#[test]
fn config_path_is_a_path_to_a_file() {
    let path = ConfigPath::new("/etc/nginx/nginx.conf".to_string(), PathKind::File).unwrap();
    assert_eq!(path.as_path(), "/etc/nginx/nginx.conf");
    assert_eq!(path.into_path_buf(), "/etc/nginx/nginx.conf");
    match ConfigPath::new("/gone".to_string(), PathKind::Missing) {
        Err(e @ ConfigPathError::NotFound(_)) => {
            assert_eq!(e.message(), "Configuration file not found: /gone")
        }
        other => panic!("{:?}", other),
    }
    for kind in [PathKind::Directory, PathKind::Other] {
        match ConfigPath::new("/etc".to_string(), kind) {
            Err(e @ ConfigPathError::NotAFile(_)) => {
                assert_eq!(e.message(), "Path is not a regular file: /etc")
            }
            other => panic!("{:?}", other),
        }
    }
    assert_eq!(
        ConfigPathError::PermissionDenied("/root/x".to_string()).message(),
        "Permission denied accessing: /root/x"
    );
}

#[test]
fn server_type_is_told_by_its_name_in_any_case() {
    assert_eq!(WebServerType::parse("nginx").unwrap(), WebServerType::Nginx);
    assert_eq!(WebServerType::parse("NGINX").unwrap(), WebServerType::Nginx);
    assert_eq!(WebServerType::parse("Apache").unwrap(), WebServerType::Apache);
    assert_eq!(WebServerType::parse("apache2").unwrap(), WebServerType::Apache);
    assert_eq!(WebServerType::parse("HTTPD").unwrap(), WebServerType::Apache);
    assert_eq!(WebServerType::parse("Caddy").unwrap(), WebServerType::Caddy);
    assert_eq!(WebServerType::from_str("traefik").unwrap(), WebServerType::Traefik);
    assert_eq!(WebServerType::from_str("Apache2").unwrap(), WebServerType::Apache);
    assert!(matches!(
        WebServerType::from_str("lighttpd"),
        Err(DomainError::InvalidWebServerType(name)) if name == "lighttpd"
    ));
    assert_eq!(WebServerType::from_lowercase("NGINX"), None);
    match WebServerType::parse("IIS") {
        Err(e @ DomainError::InvalidWebServerType(_)) => {
            assert_eq!(e.message(), "Unsupported web server type: IIS")
        }
        other => panic!("{:?}", other),
    }
    assert_eq!(WebServerType::Nginx.name(), "nginx");
    assert_eq!(WebServerType::Apache.name(), "apache");
    assert_eq!(WebServerType::Caddy.name(), "caddy");
    assert_eq!(WebServerType::Traefik.name(), "traefik");
}

#[test]
fn domain_errors_have_messages() {
    assert_eq!(
        DomainError::InvalidIpAddress("x".to_string()).message(),
        "Invalid IP address: x"
    );
    assert_eq!(DomainError::InvalidHostname("x".to_string()).message(), "Invalid hostname: x");
    assert_eq!(
        DomainError::ConfigurationNotFound("/x".to_string()).message(),
        "Configuration not found: /x"
    );
    assert_eq!(
        DomainError::IpEntryNotFound("h".to_string()).message(),
        "IP entry not found for hostname: h"
    );
}

#[test]
fn ip_entry_keeps_what_it_is_given() {
    let mut entry = IpEntry::new_at(
        "10.0.0.1".to_string(),
        "h".to_string(),
        None,
        "2024-01-02T03:04:05Z".to_string(),
    );
    assert_eq!(entry.created_at, entry.updated_at);
    entry.update_ip_at("10.0.0.2".to_string(), "2024-01-03T00:00:00Z".to_string());
    assert_eq!(entry.ip, "10.0.0.2");
    assert_eq!(entry.created_at, "2024-01-02T03:04:05Z");
    assert_eq!(entry.updated_at, "2024-01-03T00:00:00Z");
    entry.update_comment_at(Some("moved".to_string()), "2024-01-04T00:00:00Z".to_string());
    assert_eq!(entry.comment.as_deref(), Some("moved"));
    assert_eq!(entry.ip, "10.0.0.2");
    assert_eq!(entry.hostname, "h");
    assert_eq!(entry.updated_at, "2024-01-04T00:00:00Z");
}

#[test]
fn ip_entry_reads_the_clock() {
    let mut entry =
        IpEntry::new("10.0.0.1".to_string(), "h".to_string(), Some("c".to_string())).unwrap();
    assert_eq!(entry.created_at, entry.updated_at);
    let made = chrono::DateTime::parse_from_rfc3339(&entry.created_at).unwrap();
    assert!(made.timestamp() > 1_600_000_000);
    assert!(entry.update_ip("10.0.0.2".to_string()));
    assert!(entry.update_comment(None));
    assert_eq!(entry.ip, "10.0.0.2");
    assert_eq!(entry.comment, None);
    let changed = chrono::DateTime::parse_from_rfc3339(&entry.updated_at).unwrap();
    assert!(changed.timestamp() >= made.timestamp() - 1);
    let shape = regex::Regex::new(
        r"^([0-9]{4}|\+[0-9]{5,})-[0-9]{2}-[0-9]{2}T[0-9]{2}:[0-9]{2}:[0-9]{2}(\.([0-9]{3}|[0-9]{6}|[0-9]{9}))?Z$",
    )
    .unwrap();
    assert!(shape.is_match(&entry.created_at), "{}", entry.created_at);
    assert!(shape.is_match(&entry.updated_at), "{}", entry.updated_at);
    for _ in 0..50 {
        let time = ddns_updater::clock::record_time().unwrap();
        assert!(shape.is_match(&time), "{}", time);
    }
}

#[test]
fn validation_result_tells_the_verdict_or_the_error() {
    let passed = ValidationResult::from_outcome("a.conf".to_string(), Ok(true));
    assert!(passed.valid && passed.error.is_none());
    let failed = ValidationResult::from_outcome("a.conf".to_string(), Ok(false));
    assert!(!failed.valid && failed.error.is_none());
    let broken = ValidationResult::from_outcome("a.conf".to_string(), Err("boom".to_string()));
    assert!(!broken.valid);
    assert_eq!(broken.error.as_deref(), Some("boom"));
    assert_eq!(broken.config_path, "a.conf");
}

#[test]
fn ip_file_is_named_after_the_host() {
    assert_eq!(get_ip_file_path("example.com"), "example_com_ip.txt");
    assert_eq!(get_ip_file_path("a.b.c.d"), "a_b_c_d_ip.txt");
    assert_eq!(get_ip_file_path("localhost"), "localhost_ip.txt");
    assert_eq!(get_ip_file_path(""), "_ip.txt");
}

#[test]
fn address_has_changed_unless_the_file_holds_it() {
    assert!(!check_and_update_ip("10.0.0.1", Some("10.0.0.1")));
    assert!(check_and_update_ip("10.0.0.2", Some("10.0.0.1")));
    assert!(check_and_update_ip("10.0.0.1", None));
}

#[test]
fn record_file_is_named_after_the_hostname() {
    let repository = FileIpRepository::new("/var/lib/ddns-updater".to_string());
    assert_eq!(repository.get_file_path("host.example"), "/var/lib/ddns-updater/host.example.json");
    assert_eq!(
        FileIpRepository::initial_host_comment("0.0.0.0"),
        "Initial DNS host file created at first startup (will be updated with real IP)"
    );
    assert_eq!(
        FileIpRepository::initial_host_comment("10.0.0.1"),
        "Initial DNS host file created at first startup with resolved IP"
    );
    assert_eq!(FileIpRepository::initial_host_ip(&vec![]), "0.0.0.0");
    assert_eq!(
        FileIpRepository::initial_host_ip(&vec!["10.0.0.1".to_string(), "10.0.0.2".to_string()]),
        "10.0.0.1"
    );
}

#[test]
fn pattern_with_one_star_matches_by_prefix_and_suffix() {
    let a = args(None, None, "*.conf", None);
    assert!(a.matches_pattern("anything", "*"));
    assert!(a.matches_pattern("", "*"));
    assert!(a.matches_pattern("site.conf", "*.conf"));
    assert!(!a.matches_pattern("site.conf.bak", "*.conf"));
    assert!(a.matches_pattern("site-a.conf", "site-*.conf"));
    assert!(!a.matches_pattern("other-a.conf", "site-*.conf"));
    assert!(a.matches_pattern("site-", "site-*"));
    assert!(a.matches_pattern("a", "a*a"));
    assert!(a.matches_pattern("nginx.conf", "nginx.conf"));
    assert!(!a.matches_pattern("nginx.conf", "nginx.con"));
    assert!(!a.matches_pattern("abc", "*b*"));
    assert!(a.matches_pattern("*b*", "*b*"));
    assert!(!a.matches_pattern("ab", "**"));
}

#[test]
fn file_is_taken_by_name_and_content() {
    let a = args(None, Some("/etc/nginx"), "*.conf", None);
    assert!(a.accepts_file("site.conf", "server {\n listen 80;\n}\n"));
    assert!(!a.accepts_file("site.txt", "server {\n listen 80;\n}\n"));
    assert!(!a.accepts_file("site.conf", "plain text"));
}

#[test]
fn single_configuration_must_exist() {
    let a = args(Some("/etc/nginx/nginx.conf"), Some("/ignored"), "*.conf", None);
    assert_eq!(
        a.get_nginx_config_paths(PathKind::File, vec![]),
        Ok(vec!["/etc/nginx/nginx.conf".to_string()])
    );
    assert_eq!(
        a.get_nginx_config_paths(PathKind::Directory, vec![]),
        Ok(vec!["/etc/nginx/nginx.conf".to_string()])
    );
    assert_eq!(
        a.get_nginx_config_paths(PathKind::Missing, vec![]),
        Err("Nginx config file not found: /etc/nginx/nginx.conf".to_string())
    );
    assert_eq!(
        a.get_nginx_config_path(PathKind::File, vec![]),
        Ok("/etc/nginx/nginx.conf".to_string())
    );
}

#[test]
fn directory_must_hold_a_configuration() {
    let a = args(None, Some("/etc/nginx/conf.d"), "*.nginx", None);
    let found = vec!["/etc/nginx/conf.d/a.nginx".to_string(), "/etc/nginx/conf.d/b.nginx".to_string()];
    assert_eq!(a.get_nginx_config_paths(PathKind::Directory, found.clone()), Ok(found.clone()));
    assert_eq!(
        a.get_nginx_config_path(PathKind::Directory, found),
        Ok("/etc/nginx/conf.d/a.nginx".to_string())
    );
    assert_eq!(
        a.get_nginx_config_paths(PathKind::Missing, vec![]),
        Err("Config directory not found: /etc/nginx/conf.d".to_string())
    );
    assert_eq!(
        a.get_nginx_config_paths(PathKind::File, vec![]),
        Err("Path is not a directory: /etc/nginx/conf.d".to_string())
    );
    assert_eq!(
        a.get_nginx_config_paths(PathKind::Directory, vec![]),
        Err("No config files matching '*.nginx' found in /etc/nginx/conf.d".to_string())
    );
}

#[test]
fn no_configuration_named_selects_the_default() {
    let a = args(None, None, "*.conf", None);
    assert_eq!(
        a.get_nginx_config_paths(PathKind::Missing, vec![]),
        Ok(vec!["test_nginx_no_comment.conf".to_string()])
    );
    assert_eq!(
        a.get_nginx_config_path(PathKind::Missing, vec![]),
        Ok("test_nginx_no_comment.conf".to_string())
    );
}

#[test]
fn backup_directory_is_made_where_it_is_missing() {
    let named = args(None, None, "*", Some("/custom/backup"));
    assert_eq!(named.get_backup_dir(PathKind::Missing), Ok(("/custom/backup".to_string(), true)));
    assert_eq!(
        named.get_backup_dir(PathKind::Directory),
        Ok(("/custom/backup".to_string(), false))
    );
    assert_eq!(
        named.get_backup_dir(PathKind::File),
        Err("Backup path exists but is not a directory: /custom/backup".to_string())
    );
    let default = args(None, None, "*", None);
    assert_eq!(default.get_backup_dir(PathKind::Missing), Ok(("backups".to_string(), true)));
}

#[test]
fn sources_of_the_public_address_are_asked_in_order() {
    let (search, first) = HttpNetworkService::new().get_public_ip();
    match first {
        Lookup::Fetch { url, timeout_secs } => {
            assert_eq!(url, "https://api.ipify.org");
            assert!(timeout_secs >= 1 && timeout_secs <= 9);
        }
        other => panic!("{:?}", other),
    }
    let (search, second) = search.answered(Err("timed out".to_string()));
    assert!(matches!(second, Lookup::Fetch { url, .. } if url == "https://ipinfo.io/ip"));
    let (search, third) = search.answered(Err("not an address".to_string()));
    assert!(matches!(third, Lookup::Fetch { url, .. } if url == "https://icanhazip.com"));
    let (_, end) = search.answered(Err("refused".to_string()));
    match end {
        Lookup::Exhausted(e) => {
            assert_eq!(e.kind, ddns_updater::domain::entities::ErrorKind::AddressSourceExhausted);
            assert_eq!(e.message, "refused");
        }
        other => panic!("{:?}", other),
    }
}

#[test]
fn first_source_that_answers_ends_the_search() {
    let (search, _) = HttpNetworkService::new().get_public_ip();
    let (search, _) = search.answered(Err("down".to_string()));
    let (_, found) = search.answered(Ok("203.0.113.7".to_string()));
    assert!(matches!(found, Lookup::Found(ip) if ip == "203.0.113.7"));
}

#[test]
fn search_that_asked_nobody_says_so() {
    let (search, _) = HttpNetworkService::new().get_public_ip();
    let (search, _) = search.get_public_ip();
    let (search, _) = search.get_public_ip();
    let (_, end) = search.get_public_ip();
    assert!(matches!(
        end,
        Lookup::Exhausted(e) if e.message == "Failed to get public IP from all endpoints"
    ));
}

#[test]
fn messages_tell_of_a_change() {
    let console = ConsoleNotificationService::new(false);
    assert!(!console.verbose());
    assert_eq!(
        console.notify_ip_change("h", Some("10.0.0.1"), "10.0.0.2"),
        "\u{2705} IP updated for h: 10.0.0.1 \u{2192} 10.0.0.2"
    );
    assert_eq!(
        console.notify_ip_change("h", None, "10.0.0.2"),
        "\u{2705} New IP registered for h: 10.0.0.2"
    );
    assert_eq!(console.notify_error("boom", Some("reload")), "\u{274c} Error in reload: boom");
    assert_eq!(console.notify_error("boom", None), "\u{274c} Error: boom");
    let log = LogNotificationService::new();
    assert_eq!(
        log.notify_ip_change("h", Some("10.0.0.1"), "10.0.0.2"),
        "DDNS IP updated for h: 10.0.0.1 -> 10.0.0.2"
    );
    assert_eq!(log.notify_ip_change("h", None, "10.0.0.2"), "DDNS new IP registered for h: 10.0.0.2");
    assert_eq!(log.notify_error("boom", Some("reload")), "DDNS error in reload: boom");
    assert_eq!(log.notify_error("boom", None), "DDNS error: boom");
}

#[test]
fn family_is_told_by_path_then_content() {
    let discovery = FileSystemConfigDiscovery::new();
    let detect = |path: &str, content: &str| discovery.detect_server_type_from_content(path, content);
    assert_eq!(detect("/etc/NGINX/site", "<VirtualHost>"), WebServerType::Nginx);
    assert_eq!(detect("/etc/apache2/site", "server_name x; listen 80;"), WebServerType::Apache);
    assert_eq!(detect("/srv/httpd.conf", ""), WebServerType::Apache);
    assert_eq!(detect("/srv/site", "Server_Name x;\nLISTEN 80;"), WebServerType::Nginx);
    assert_eq!(detect("/srv/site", "server_name x;"), WebServerType::Nginx);
    assert_eq!(detect("/srv/site", "<VirtualHost *:80>"), WebServerType::Apache);
    assert_eq!(detect("/srv/site", "DocumentRoot /srv"), WebServerType::Apache);
    assert_eq!(detect("/srv/site", "example.com {\n reverse_proxy :8080\n}"), WebServerType::Caddy);
    assert_eq!(detect("/srv/site", "# Caddyfile"), WebServerType::Caddy);
    assert_eq!(detect("/srv/site", "nothing to see"), WebServerType::Nginx);
    assert_eq!(discovery.classify("/etc/NGINX/site", "documentroot"), WebServerType::Apache);
}

#[test]
fn pattern_names_a_directory_or_a_file() {
    let discovery = FileSystemConfigDiscovery::new();
    assert_eq!(
        discovery.expand_glob_pattern("/etc/nginx/sites-enabled/*"),
        (GlobKind::AllFiles, "/etc/nginx/sites-enabled".to_string())
    );
    assert_eq!(
        discovery.expand_glob_pattern("/etc/nginx/conf.d/*.conf"),
        (GlobKind::ConfFiles, "/etc/nginx/conf.d".to_string())
    );
    assert_eq!(
        discovery.expand_glob_pattern("/etc/nginx/nginx.conf"),
        (GlobKind::SingleFile, "/etc/nginx/nginx.conf".to_string())
    );
    assert_eq!(discovery.expand_glob_pattern("/*"), (GlobKind::AllFiles, String::new()));
    let patterns = discovery.get_common_config_patterns();
    assert_eq!(patterns[0], "/etc/nginx/sites-available/*");
    assert_eq!(patterns[9], "/usr/local/etc/apache2*/*");
}

#[test]
fn hostname_characters_are_letters_digits_and_three_signs() {
    assert!(accepts_char('a', true));
    assert!(accepts_char('.', false));
    assert!(accepts_char('-', false));
    assert!(accepts_char('_', false));
    assert!(!accepts_char(' ', false));
    assert!(!accepts_char('/', false));
}

#[test]
fn comment_names_its_hostname() {
    assert_eq!(hostname_of_comment("DDNS for host.example"), "host.example");
    assert_eq!(hostname_of_comment("host.example"), "host.example");
    assert_eq!(hostname_of_comment("DDNS for "), "");
    assert_eq!(hostname_of_comment(""), "");
    assert_eq!(hostname_of_comment("DDNS for DDNS for h"), "DDNS for h");
}
