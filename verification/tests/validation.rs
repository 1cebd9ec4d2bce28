use ddns_updater::application::use_cases::{ConfigValidationUseCase, MultiConfigResult};
use ddns_updater::config::nginx::{
    backup_nginx_config, backup_nginx_config_to_dir, is_nginx_config_file,
    validate_nginx_config_file,
};
use ddns_updater::domain::entities::{UpdateResult, WebServerConfig, WebServerType};
use ddns_updater::infrastructure::config_discovery::FileSystemConfigDiscovery;
use ddns_updater::infrastructure::webservers::apache::{
    classify_line, validate_apache_structure, LineKind,
};
use ddns_updater::infrastructure::webservers::backup::{backup_path, backup_path_now};
use ddns_updater::infrastructure::webservers::commands::{nth_reload_command, nth_syntax_check};
use ddns_updater::infrastructure::webservers::handler::{
    validate_config, validate_structure, CheckerOutcome, Handler,
};
use ddns_updater::infrastructure::webservers::nginx::validate_nginx_structure;
use ddns_updater::infrastructure::webservers::rules::Dialect;
use ddns_updater::interface::cli_interface::{CliInterface, Closing, Summary};

#[test]
fn nginx_structure_needs_braces_a_block_and_a_directive() {
    assert!(validate_nginx_structure("server {\n    listen 80;\n}\n"));
    assert!(validate_nginx_structure("upstream b {\n  server 127.0.0.1:3000;\n}"));
    assert!(validate_nginx_structure("events {\n}\nhttp {\n  access_log off;\n}\n"));
    assert!(!validate_nginx_structure(""));
    assert!(!validate_nginx_structure("server {\n    listen 80;\n"));
    assert!(!validate_nginx_structure("server {\n    listen 80;\n}}\n"));
    assert!(validate_nginx_structure("http {\ngzip on;\n}"));
    assert!(validate_nginx_structure("events {\n    worker_connections 1024;\n}\n"));
    assert!(!validate_nginx_structure("location / {\n    allow all;\n}\n"));
    assert!(!validate_nginx_structure("server {\n    listen 80\n}\n"));
    assert!(!validate_nginx_structure("events {\n}\nhttp {\n}\n"));
    assert!(!validate_nginx_structure("# server {\n# listen 80;\n# }\n"));
    assert!(!validate_nginx_structure("server\n{\n    listen 80;\n}\n"));
}

#[test]
fn apache_structure_needs_tags_a_block_and_a_directive() {
    let valid = "<VirtualHost *:80>\n    ServerName example.com\n</VirtualHost>\n";
    assert_eq!(validate_apache_structure(valid).map_err(|e| e.message), Ok(true));
    for invalid in [
        "",
        "ServerName example.com\n",
        "<VirtualHost *:80>\n    ServerName example.com\n",
        "<VirtualHost *:80>\n</VirtualHost>\n",
        "<IfModule x>\n    ServerName example.com\n</IfModule>\n",
        "<VirtualHost>\n    ServerName example.com\n</VirtualHost>\n",
        "# <VirtualHost *:80>\n# ServerName example.com\n# </VirtualHost>\n",
    ] {
        assert_eq!(
            validate_apache_structure(invalid).map_err(|e| e.message),
            Ok(false),
            "{:?}",
            invalid
        );
    }
    assert_eq!(validate_structure(Dialect::Apache, valid).map_err(|e| e.message), Ok(true));
    assert_eq!(
        validate_structure(Dialect::Nginx, "server {\n listen 80;\n}").map_err(|e| e.message),
        Ok(true)
    );
}

#[test]
fn lines_are_told_apart() {
    let kind = |line: &str| classify_line(&line.chars().collect::<Vec<char>>());
    assert_eq!(kind("  <Directory /srv>"), LineKind::StartTag);
    assert_eq!(kind("</Directory>"), LineKind::EndTag);
    assert_eq!(kind("\tRequire all granted "), LineKind::Directive);
    assert_eq!(kind("   "), LineKind::Silent);
    assert_eq!(kind(""), LineKind::Silent);
    assert_eq!(kind(" # <Directory>"), LineKind::Silent);
}

#[test]
fn missing_checker_is_never_a_failure_in_itself() {
    let good = "server {\n    listen 80;\n}\n";
    let bad = "not a configuration";
    let valid = |checker, doc| validate_config(Dialect::Nginx, checker, doc).map_err(|e| e.message);
    assert_eq!(valid(CheckerOutcome::Passed, bad), Ok(true));
    assert_eq!(valid(CheckerOutcome::Failed, good), Ok(false));
    assert_eq!(valid(CheckerOutcome::Unavailable, good), Ok(true));
    assert_eq!(valid(CheckerOutcome::Unavailable, bad), Ok(false));
}

#[test]
fn backup_goes_to_its_directory_or_beside_the_file() {
    assert_eq!(
        backup_path("/etc/nginx/site.conf", Some("/var/backups"), "20240102_030405"),
        "/var/backups/site.conf.bak.20240102_030405"
    );
    assert_eq!(
        backup_path("/etc/nginx/site.conf", None, "20240102_030405"),
        "/etc/nginx/site.conf.bak.20240102_030405"
    );
    assert_eq!(backup_path("site.conf", None, "1"), "site.conf.bak.1");
    assert_eq!(backup_path("/site.conf", None, "1"), "/site.conf.bak.1");
    assert_eq!(backup_path("dir/", None, "1"), "dir/config.bak.1");
    assert_eq!(backup_path("", Some("b"), "1"), "b/config.bak.1");
    assert_eq!(backup_path("", None, ""), "config.bak.");
}

#[test]
fn backup_made_now_is_stamped_by_the_clock() {
    let path = backup_path_now("/etc/nginx/site.conf", Some("/var/backups")).unwrap();
    let stamp = path.strip_prefix("/var/backups/site.conf.bak.").unwrap();
    assert_eq!(stamp.len(), 15);
    assert!(chrono::NaiveDateTime::parse_from_str(stamp, "%Y%m%d_%H%M%S").is_ok());
    let shape = regex::Regex::new(r"^([0-9]{4}|\+[0-9]{5,})[0-9]{4}_[0-9]{6}$").unwrap();
    for _ in 0..50 {
        let stamp = ddns_updater::clock::backup_stamp().unwrap();
        assert!(shape.is_match(&stamp), "{}", stamp);
    }
    let nginx = Handler::for_type(WebServerType::Caddy, Some("/b".to_string()));
    assert!(nginx.backup_file("/a/x.conf").unwrap().starts_with("/b/x.conf.bak.2"));
    let apache = Handler::for_type(WebServerType::Apache, Some("/b".to_string()));
    assert!(apache.backup_file("/a/x.conf").unwrap().starts_with("/a/x.conf.bak.2"));
}

#[test]
fn legacy_backup_is_stamped_with_seconds() {
    assert_eq!(
        backup_nginx_config("/etc/nginx/nginx.conf", 1700000000),
        Ok("/etc/nginx/nginx.conf.bak.1700000000".to_string())
    );
    assert_eq!(backup_nginx_config("nginx.conf", 0), Ok("nginx.conf.bak.0".to_string()));
    assert_eq!(
        backup_nginx_config_to_dir("/etc/nginx/nginx.conf", Some("backups"), 42),
        Ok("backups/nginx.conf.bak.42".to_string())
    );
    assert_eq!(backup_nginx_config("/etc/nginx/", 1), Err("Invalid config path".to_string()));
    assert_eq!(backup_nginx_config("", 1), Err("Invalid config path".to_string()));
}

#[test]
fn file_check_says_what_is_wrong() {
    assert_eq!(
        validate_nginx_config_file("a.conf", false, Err("gone".to_string())),
        Err("Config file not found: a.conf".to_string())
    );
    assert_eq!(
        validate_nginx_config_file("a.conf", true, Err("denied".to_string())),
        Err("Failed to read config file 'a.conf': denied".to_string())
    );
    assert_eq!(
        validate_nginx_config_file("a.conf", true, Ok("plain".to_string())),
        Err("File 'a.conf' does not appear to be an nginx configuration file. Expected to find nginx directives like 'server', 'location', 'listen', etc.".to_string())
    );
    assert_eq!(
        validate_nginx_config_file("a.conf", true, Ok("server {\n listen 80;\n}".to_string())),
        Ok(())
    );
    assert_eq!(is_nginx_config_file(Err("denied".to_string())), Err("denied".to_string()));
    assert_eq!(is_nginx_config_file(Ok("server {\n}".to_string())), Ok(true));
}

#[test]
fn one_line_in_five_must_begin_with_a_directive() {
    let four = "server {\na;\nb;\nc;\n}";
    let five = "server {\na;\nb;\nc;\nd;\n}";
    assert_eq!(is_nginx_config_file(Ok(four.to_string())), Ok(true));
    assert_eq!(is_nginx_config_file(Ok(five.to_string())), Ok(false));
    assert_eq!(is_nginx_config_file(Ok("servers {\n}".to_string())), Ok(false));
    assert_eq!(is_nginx_config_file(Ok("server{\n}".to_string())), Ok(true));
    assert_eq!(is_nginx_config_file(Ok("if\t($x) {\n}".to_string())), Ok(true));
}

#[test]
fn checkers_and_reloads_are_tried_in_order() {
    let show = |c: Option<ddns_updater::infrastructure::webservers::commands::Command>| {
        c.map(|c| format!("{} {}", c.program, c.args.join(" ")))
    };
    assert_eq!(
        show(nth_syntax_check(Dialect::Nginx, "/a.conf", 0)).as_deref(),
        Some("nginx -t -c /a.conf")
    );
    assert_eq!(show(nth_syntax_check(Dialect::Nginx, "/a.conf", 1)), None);
    assert_eq!(
        show(nth_syntax_check(Dialect::Apache, "/a.conf", 0)).as_deref(),
        Some("apache2ctl -t -f /a.conf")
    );
    assert_eq!(
        show(nth_syntax_check(Dialect::Apache, "/a.conf", 1)).as_deref(),
        Some("apachectl -t -f /a.conf")
    );
    assert_eq!(
        show(nth_syntax_check(Dialect::Apache, "/a.conf", 2)).as_deref(),
        Some("httpd -t -f /a.conf")
    );
    assert_eq!(show(nth_syntax_check(Dialect::Apache, "/a.conf", 3)), None);
    assert_eq!(show(nth_reload_command(Dialect::Nginx, 0)).as_deref(), Some("systemctl reload nginx"));
    assert_eq!(show(nth_reload_command(Dialect::Nginx, 1)), None);
    assert_eq!(
        show(nth_reload_command(Dialect::Apache, 0)).as_deref(),
        Some("systemctl reload apache2")
    );
    assert_eq!(
        show(nth_reload_command(Dialect::Apache, 1)).as_deref(),
        Some("systemctl reload httpd")
    );
    assert_eq!(show(nth_reload_command(Dialect::Apache, 2)), None);
}

#[test]
fn discovered_configuration_gets_its_family() {
    let use_case = ConfigValidationUseCase::new(FileSystemConfigDiscovery::new());
    let config = use_case.discover_config("/srv/site.conf", "<VirtualHost *:80>");
    assert_eq!(config.path, "/srv/site.conf");
    assert_eq!(config.server_type, WebServerType::Apache);
    assert!(config.backup_path.is_none());
    let configs = vec![
        WebServerConfig::new("a.conf".to_string(), WebServerType::Nginx),
        WebServerConfig::new("b.conf".to_string(), WebServerType::Nginx),
    ];
    let results = use_case.validate_configs(
        &configs,
        vec![Ok(true), Err("no checker".to_string()), Ok(false)],
    );
    assert_eq!(results.len(), 2);
    assert_eq!(results[0].config_path, "a.conf");
    assert!(results[0].valid);
    assert_eq!(results[1].config_path, "b.conf");
    assert!(!results[1].valid);
    assert_eq!(results[1].error.as_deref(), Some("no checker"));
}

#[test]
fn result_is_summed_up() {
    let updated = UpdateResult::Updated {
        hostname: "h".to_string(),
        old_ip: None,
        new_ip: "10.0.0.2".to_string(),
        backup_path: "b".to_string(),
    };
    let unchanged = UpdateResult::NoChange { ip: "10.0.0.2".to_string() };
    let result = MultiConfigResult {
        successes: vec![updated.clone(), unchanged.clone(), updated, unchanged.clone(), unchanged],
        errors: vec![("x".to_string(), "boom".to_string())],
    };
    assert_eq!(CliInterface::summarize(&result), Summary { updated: 2, no_change: 3, errors: 1 });
    assert_eq!(CliInterface::closing(&result), Closing::Counts);
    assert_eq!(CliInterface::exit_code(&result), 1);
    assert_eq!(result.total_processed(), 6);
    let empty = MultiConfigResult { successes: vec![], errors: vec![] };
    assert_eq!(CliInterface::summarize(&empty), Summary { updated: 0, no_change: 0, errors: 0 });
    assert_eq!(CliInterface::closing(&empty), Closing::NothingProcessed);
    assert_eq!(CliInterface::exit_code(&empty), 0);
    let failed = MultiConfigResult { successes: vec![], errors: vec![("x".into(), "y".into())] };
    assert_eq!(CliInterface::closing(&failed), Closing::NothingUpdated);
}

#[test]
fn storage_and_backup_directories_follow_the_mode() {
    assert_eq!(
        CliInterface::storage_dir(true, Some("/tmp/s".to_string()), false).as_deref(),
        Some("/tmp/s")
    );
    assert_eq!(CliInterface::storage_dir(true, None, true).as_deref(), Some("./test_storage"));
    assert_eq!(
        CliInterface::storage_dir(false, Some("/tmp/s".to_string()), true).as_deref(),
        Some("/var/lib/ddns-updater")
    );
    assert_eq!(CliInterface::storage_dir(false, None, false), None);
    assert_eq!(
        CliInterface::backup_dir(Some("/b".to_string()), "./test_storage").as_deref(),
        Some("/b")
    );
    assert_eq!(CliInterface::backup_dir(None, "./test_storage").as_deref(), Some("./test_backups"));
    assert_eq!(CliInterface::backup_dir(None, "/var/lib/ddns-updater"), None);
}

#[test]
fn strategy_of_a_family_edits_as_the_family_does() {
    let nginx = Handler::for_type(WebServerType::Nginx, None);
    let (out, changed) = nginx
        .update_allow_list("allow 10.0.0.1; # office", "h", Some("10.0.0.1"), "10.0.0.2")
        .unwrap();
    assert!(changed);
    assert_eq!(out, "allow 10.0.0.2; # office");
    let apache = Handler::for_type(WebServerType::Apache, None);
    let doc = "<Location />\n  Allow from 10.0.0.1 # DDNS for h\n</Location>";
    let (out, changed) = apache.update_allow_list(doc, "h", None, "10.0.0.2").unwrap();
    assert!(changed);
    assert_eq!(out, "<Location />\n  Allow from 10.0.0.2 # DDNS: h\n</Location>");
    let (out, changed) =
        apache.update_allow_list("allow 10.0.0.1;", "h", Some("10.0.0.1"), "10.0.0.2").unwrap();
    assert!(!changed);
    assert_eq!(out, "allow 10.0.0.1;");
}

#[test]
fn settings_keep_the_retention_they_are_given() {
    let settings = ddns_updater::application::services::AppConfig::default()
        .with_backup_retention(7, 3);
    assert_eq!(settings.backup_retention_days, 7);
    assert_eq!(settings.max_backups, 3);
    assert_eq!(settings.backup_dir, None);
}
