use ddns_updater::application::use_cases::{BatchStep, DdnsApplication, MultiConfigResult};
use ddns_updater::domain::entities::{
    ErrorKind, UpdateError, UpdateResult, WebServerConfig, WebServerType,
};
use ddns_updater::domain::ports::{Answer, Request, UpdateStep};
use ddns_updater::domain::services::DdnsUpdateService;
use ddns_updater::infrastructure::webservers::backup::backup_path;
use std::collections::BTreeMap;

const HOST: &str = "host.example";

/// A stand-in for everything outside the library.
struct Outside {
    addresses: Vec<String>,
    record: Option<String>,
    files: BTreeMap<String, String>,
    checker_installed: bool,
    refused_by_checker: Vec<String>,
    reload_works: bool,
    record_readable: bool,
    record_writable: bool,
    listener_reachable: bool,
    asked: Vec<String>,
    stores: usize,
    notifications: usize,
}

impl Outside {
    fn new(addresses: &[&str], record: Option<&str>) -> Outside {
        Outside {
            addresses: addresses.iter().map(|a| a.to_string()).collect(),
            record: record.map(|r| r.to_string()),
            files: BTreeMap::new(),
            checker_installed: true,
            refused_by_checker: Vec::new(),
            reload_works: true,
            record_readable: true,
            record_writable: true,
            listener_reachable: true,
            asked: Vec::new(),
            stores: 0,
            notifications: 0,
        }
    }

    fn with_file(mut self, path: &str, content: &str) -> Outside {
        self.files.insert(path.to_string(), content.to_string());
        self
    }

    fn perform(&mut self, request: Request) -> Answer {
        match request {
            Request::ResolveHostname { hostname } => {
                self.asked.push(format!("resolve {}", hostname));
                Answer::Resolved(self.addresses.clone())
            }
            Request::LoadIp { hostname } => {
                self.asked.push(format!("load {}", hostname));
                if !self.record_readable {
                    return Answer::Failed("record is damaged".to_string());
                }
                Answer::Loaded(self.record.clone())
            }
            Request::StoreIp { hostname, ip } => {
                self.asked.push(format!("store {} {}", hostname, ip));
                if !self.record_writable {
                    return Answer::Failed("disk is full".to_string());
                }
                self.record = Some(ip);
                self.stores += 1;
                Answer::Done
            }
            Request::NotifyIpChange { hostname, old_ip, new_ip } => {
                self.asked.push(format!(
                    "notify {} {} {}",
                    hostname,
                    old_ip.as_deref().unwrap_or("-"),
                    new_ip
                ));
                if !self.listener_reachable {
                    return Answer::Failed("nobody listens".to_string());
                }
                self.notifications += 1;
                Answer::Done
            }
            Request::ReadConfig { path } => {
                self.asked.push(format!("read {}", path));
                match self.files.get(&path) {
                    Some(content) => Answer::Content(content.clone()),
                    None => Answer::Missing,
                }
            }
            Request::CreateBackup { path, backup_dir } => {
                self.asked.push(format!("backup {}", path));
                Answer::BackedUp(backup_path(&path, backup_dir.as_deref(), "20240102_030405"))
            }
            Request::WriteConfig { path, content } => {
                self.asked.push(format!("write {}", path));
                self.files.insert(path, content);
                Answer::Done
            }
            Request::Run { command } => {
                self.asked.push(format!("run {} {}", command.program, command.args.join(" ")));
                if command.program == "systemctl" {
                    Answer::Exited(self.reload_works)
                } else if !self.checker_installed {
                    Answer::Unavailable
                } else {
                    let path = command.args.last().unwrap();
                    Answer::Exited(!self.refused_by_checker.contains(path))
                }
            }
        }
    }

    fn run_one(
        &mut self,
        start: (DdnsUpdateService, Request),
    ) -> Result<UpdateResult, UpdateError> {
        let (mut run, mut request) = start;
        loop {
            let answer = self.perform(request);
            let (next, step) = run.step(answer);
            run = next;
            match step {
                UpdateStep::Ask(r) => request = r,
                UpdateStep::Finish(outcome) => {
                    assert!(run.is_finished());
                    return outcome;
                }
            }
        }
    }

    fn run_many(&mut self, start: (DdnsApplication, Request)) -> MultiConfigResult {
        let (mut run, mut request) = start;
        loop {
            let answer = self.perform(request);
            let (next, step) = run.step(answer);
            run = next;
            match step {
                BatchStep::Ask(r) => request = r,
                BatchStep::Finish(result) => {
                    assert!(run.is_finished());
                    return result;
                }
            }
        }
    }
}

fn nginx_doc(address: &str) -> String {
    format!(
        "server {{\n    listen 80;\n    location / {{\n        allow {}; # DDNS: {}\n        deny all;\n    }}\n}}\n",
        address, HOST
    )
}

fn apache_doc(address: &str) -> String {
    format!(
        "<VirtualHost *:80>\n    <Directory /var/www>\n        Require ip {} # DDNS: {}\n    </Directory>\n</VirtualHost>\n",
        address, HOST
    )
}

fn nginx_target(path: &str) -> WebServerConfig {
    WebServerConfig::new(path.to_string(), WebServerType::Nginx)
}

fn paths(paths: &[&str]) -> Vec<String> {
    paths.iter().map(|p| p.to_string()).collect()
}

#[test]
fn unchanged_address_touches_no_file() {
    let mut outside = Outside::new(&["10.0.0.1", "10.0.0.7"], Some("10.0.0.1"))
        .with_file("a.conf", &nginx_doc("10.0.0.1"))
        .with_file("b.conf", &nginx_doc("10.0.0.1"))
        .with_file("c.conf", &nginx_doc("10.0.0.1"));
    let targets = paths(&["a.conf", "b.conf", "c.conf"]);
    let result =
        outside.run_many(DdnsApplication::update_ddns_multiple(HOST, targets, None, false, false));
    assert_eq!(outside.asked, vec!["resolve host.example", "load host.example"]);
    assert_eq!(result.successes.len(), 3);
    assert!(result.errors.is_empty());
    for outcome in &result.successes {
        assert!(matches!(outcome, UpdateResult::NoChange { ip } if ip == "10.0.0.1"));
    }
    assert!(!result.has_errors());
    assert_eq!(result.total_processed(), 3);
}

#[test]
fn one_failing_target_leaves_the_others_alone() {
    let mut outside = Outside::new(&["10.0.0.2"], Some("10.0.0.1"))
        .with_file("a.conf", &nginx_doc("10.0.0.1"))
        .with_file("b.conf", &nginx_doc("10.0.0.1"))
        .with_file("c.conf", &nginx_doc("10.0.0.1"));
    outside.refused_by_checker.push("b.conf".to_string());
    let targets = paths(&["a.conf", "b.conf", "c.conf"]);
    let result =
        outside.run_many(DdnsApplication::update_ddns_multiple(HOST, targets, None, false, false));
    assert_eq!(result.successes.len(), 2);
    assert_eq!(
        result.errors,
        vec![("b.conf".to_string(), "Configuration test failed after update".to_string())]
    );
    assert_eq!(UpdateError::config_test_failed().kind, ErrorKind::InvalidConfig);
    assert_eq!(result.total_processed(), 3);
    assert!(result.has_errors());
    for outcome in &result.successes {
        match outcome {
            UpdateResult::Updated { hostname, old_ip, new_ip, .. } => {
                assert_eq!(hostname, HOST);
                assert_eq!(old_ip.as_deref(), Some("10.0.0.1"));
                assert_eq!(new_ip, "10.0.0.2");
            }
            UpdateResult::NoChange { .. } => panic!("both other targets hold the old address"),
        }
    }
    assert_eq!(outside.files["a.conf"], nginx_doc("10.0.0.2"));
    assert_eq!(outside.files["c.conf"], nginx_doc("10.0.0.2"));
    assert_eq!(outside.stores, 1);
    assert_eq!(outside.notifications, 1);
    assert_eq!(outside.record.as_deref(), Some("10.0.0.2"));
}

#[test]
fn batch_tells_the_family_of_a_target_when_it_reads_it() {
    let mut outside = Outside::new(&["10.0.0.2"], Some("10.0.0.1"))
        .with_file("site.conf", &apache_doc("10.0.0.1"))
        .with_file("/etc/NGINX/a.conf", &nginx_doc("10.0.0.1"))
        .with_file("/srv/httpd/b.conf", &apache_doc("10.0.0.1"));
    let result = outside.run_many(DdnsApplication::update_ddns_multiple(
        HOST,
        paths(&["site.conf", "/etc/NGINX/a.conf", "/srv/httpd/b.conf"]),
        Some("/var/backups".to_string()),
        false,
        true,
    ));
    assert!(result.errors.is_empty());
    let backups: Vec<&str> = result
        .successes
        .iter()
        .map(|outcome| match outcome {
            UpdateResult::Updated { backup_path, .. } => backup_path.as_str(),
            UpdateResult::NoChange { .. } => panic!("every target holds the old address"),
        })
        .collect();
    assert_eq!(
        backups,
        vec![
            "/var/backups/site.conf.bak.20240102_030405",
            "/var/backups/a.conf.bak.20240102_030405",
            "/var/backups/b.conf.bak.20240102_030405",
        ]
    );
    assert_eq!(
        outside.asked,
        vec![
            "resolve host.example",
            "load host.example",
            "read site.conf",
            "backup site.conf",
            "write site.conf",
            "run apache2ctl -t -f site.conf",
            "run systemctl reload apache2",
            "read /etc/NGINX/a.conf",
            "backup /etc/NGINX/a.conf",
            "write /etc/NGINX/a.conf",
            "run nginx -t -c /etc/NGINX/a.conf",
            "run systemctl reload nginx",
            "read /srv/httpd/b.conf",
            "backup /srv/httpd/b.conf",
            "write /srv/httpd/b.conf",
            "run apache2ctl -t -f /srv/httpd/b.conf",
            "run systemctl reload apache2",
            "store host.example 10.0.0.2",
            "notify host.example 10.0.0.1 10.0.0.2",
        ]
    );
    assert_eq!(outside.files["site.conf"], apache_doc("10.0.0.2"));
    assert_eq!(outside.files["/etc/NGINX/a.conf"], nginx_doc("10.0.0.2"));
    assert_eq!(outside.files["/srv/httpd/b.conf"], apache_doc("10.0.0.2"));
}

#[test]
fn path_tells_the_family_before_the_content_does() {
    let mut outside = Outside::new(&["10.0.0.2"], Some("10.0.0.1"))
        .with_file("/etc/apache2/odd.conf", &nginx_doc("10.0.0.1"));
    let result = outside.run_many(DdnsApplication::update_ddns_multiple(
        HOST,
        paths(&["/etc/apache2/odd.conf"]),
        None,
        false,
        true,
    ));
    assert!(result.errors.is_empty());
    assert!(matches!(&result.successes[0], UpdateResult::NoChange { ip } if ip == "10.0.0.2"));
    assert_eq!(outside.files["/etc/apache2/odd.conf"], nginx_doc("10.0.0.1"));
    assert_eq!(outside.stores, 0);
}

#[test]
fn targets_that_come_with_their_family_keep_it() {
    let mut outside = Outside::new(&["10.0.0.2"], Some("10.0.0.1"))
        .with_file("/etc/apache2/odd.conf", &nginx_doc("10.0.0.1"))
        .with_file("b.conf", &apache_doc("10.0.0.1"));
    let targets = vec![
        nginx_target("/etc/apache2/odd.conf"),
        WebServerConfig::new("b.conf".to_string(), WebServerType::Apache)
            .with_backup("/var/backups".to_string()),
    ];
    let result =
        outside.run_many(DdnsApplication::update_ddns_targets(HOST, targets, true, true));
    assert!(result.errors.is_empty());
    assert_eq!(result.total_processed(), 2);
    match &result.successes[0] {
        UpdateResult::Updated { backup_path, .. } => {
            assert_eq!(backup_path, "/etc/apache2/odd.conf.bak.20240102_030405")
        }
        UpdateResult::NoChange { .. } => panic!("the target holds the old address"),
    }
    match &result.successes[1] {
        UpdateResult::Updated { backup_path, .. } => {
            assert_eq!(backup_path, "/var/backups/b.conf.bak.20240102_030405")
        }
        UpdateResult::NoChange { .. } => panic!("the target holds the old address"),
    }
    assert_eq!(
        outside.asked,
        vec![
            "resolve host.example",
            "load host.example",
            "read /etc/apache2/odd.conf",
            "backup /etc/apache2/odd.conf",
            "write /etc/apache2/odd.conf",
            "run nginx -t -c /etc/apache2/odd.conf",
            "read b.conf",
            "backup b.conf",
            "write b.conf",
            "run apache2ctl -t -f b.conf",
            "store host.example 10.0.0.2",
            "notify host.example 10.0.0.1 10.0.0.2",
        ]
    );
    assert_eq!(outside.files["/etc/apache2/odd.conf"], nginx_doc("10.0.0.2"));
    assert_eq!(outside.files["b.conf"], apache_doc("10.0.0.2"));
}

#[test]
fn batch_without_an_edit_writes_no_record() {
    let mut outside = Outside::new(&["10.0.0.2"], Some("10.0.0.1"))
        .with_file("a.conf", &nginx_doc("192.168.0.1"));
    let result = outside.run_many(DdnsApplication::update_ddns_multiple(
        HOST,
        paths(&["a.conf"]),
        None,
        false,
        false,
    ));
    assert_eq!(result.successes.len(), 1);
    assert!(matches!(&result.successes[0], UpdateResult::NoChange { ip } if ip == "10.0.0.2"));
    assert_eq!(outside.asked, vec!["resolve host.example", "load host.example", "read a.conf"]);
    assert_eq!(outside.stores, 0);
    assert_eq!(outside.notifications, 0);
    assert_eq!(outside.files["a.conf"], nginx_doc("192.168.0.1"));
}

#[test]
fn batch_with_no_address_fails_every_target() {
    let mut outside = Outside::new(&[], Some("10.0.0.1"));
    let targets = paths(&["a.conf", "b.conf"]);
    let result =
        outside.run_many(DdnsApplication::update_ddns_multiple(HOST, targets, None, false, false));
    assert!(result.successes.is_empty());
    assert_eq!(
        result.errors,
        vec![
            ("a.conf".to_string(), "Could not resolve hostname: host.example".to_string()),
            ("b.conf".to_string(), "Could not resolve hostname: host.example".to_string()),
        ]
    );
    assert_eq!(outside.asked, vec!["resolve host.example"]);
}

#[test]
fn batch_without_targets_ends_empty() {
    let mut outside = Outside::new(&["10.0.0.2"], Some("10.0.0.1"));
    let result =
        outside.run_many(DdnsApplication::update_ddns_multiple(HOST, Vec::new(), None, false, false));
    assert_eq!(result.total_processed(), 0);
    assert_eq!(outside.asked, vec!["resolve host.example", "load host.example"]);
}

#[test]
fn batch_without_a_record_only_observes() {
    let mut outside = Outside::new(&["10.0.0.2"], None)
        .with_file("a.conf", &nginx_doc("10.0.0.1"))
        .with_file("b.conf", &apache_doc("10.0.0.1"));
    let targets = paths(&["a.conf", "b.conf", "gone.conf"]);
    let result =
        outside.run_many(DdnsApplication::update_ddns_multiple(HOST, targets, None, false, true));
    assert_eq!(result.successes.len(), 2);
    for outcome in &result.successes {
        assert!(matches!(outcome, UpdateResult::NoChange { ip } if ip == "10.0.0.2"));
    }
    assert_eq!(
        result.errors,
        vec![("gone.conf".to_string(), "Configuration not found: gone.conf".to_string())]
    );
    assert_eq!(
        outside.asked,
        vec![
            "resolve host.example",
            "load host.example",
            "store host.example 10.0.0.2",
            "read a.conf",
            "read b.conf",
            "read gone.conf",
        ]
    );
    assert_eq!(outside.files["a.conf"], nginx_doc("10.0.0.1"));
    assert_eq!(outside.files["b.conf"], apache_doc("10.0.0.1"));
    assert_eq!(outside.stores, 1);
    assert_eq!(outside.notifications, 0);
    assert_eq!(outside.record.as_deref(), Some("10.0.0.2"));
}

#[test]
fn batch_that_cannot_write_the_first_record_fails_every_target() {
    let mut outside =
        Outside::new(&["10.0.0.2"], None).with_file("a.conf", &nginx_doc("10.0.0.1"));
    outside.record_writable = false;
    let result = outside.run_many(DdnsApplication::update_ddns_multiple(
        HOST,
        paths(&["a.conf", "b.conf"]),
        None,
        false,
        true,
    ));
    assert!(result.successes.is_empty());
    assert_eq!(
        result.errors,
        vec![
            ("a.conf".to_string(), "disk is full".to_string()),
            ("b.conf".to_string(), "disk is full".to_string()),
        ]
    );
    assert_eq!(outside.files["a.conf"], nginx_doc("10.0.0.1"));
}

#[test]
fn first_run_only_observes() {
    let mut outside =
        Outside::new(&["10.0.0.2"], None).with_file("a.conf", &nginx_doc("10.0.0.1"));
    let outcome =
        outside.run_one(DdnsUpdateService::update_ddns(HOST, &nginx_target("a.conf"))).unwrap();
    assert!(matches!(outcome, UpdateResult::NoChange { ip } if ip == "10.0.0.2"));
    assert_eq!(
        outside.asked,
        vec![
            "run nginx -t -c a.conf",
            "resolve host.example",
            "load host.example",
            "store host.example 10.0.0.2",
            "read a.conf",
        ]
    );
    assert_eq!(outside.files["a.conf"], nginx_doc("10.0.0.1"));
    assert_eq!(outside.record.as_deref(), Some("10.0.0.2"));
}

#[test]
fn changed_address_is_written_checked_reloaded_and_recorded() {
    let mut outside =
        Outside::new(&["10.0.0.2"], Some("10.0.0.1")).with_file("/etc/nginx/a.conf", &nginx_doc("10.0.0.1"));
    let target = nginx_target("/etc/nginx/a.conf").with_backup("/var/backups".to_string());
    let outcome = outside.run_one(DdnsUpdateService::update_ddns(HOST, &target)).unwrap();
    match outcome {
        UpdateResult::Updated { hostname, old_ip, new_ip, backup_path } => {
            assert_eq!(hostname, HOST);
            assert_eq!(old_ip.as_deref(), Some("10.0.0.1"));
            assert_eq!(new_ip, "10.0.0.2");
            assert_eq!(backup_path, "/var/backups/a.conf.bak.20240102_030405");
        }
        UpdateResult::NoChange { .. } => panic!("the target holds the old address"),
    }
    assert_eq!(
        outside.asked,
        vec![
            "run nginx -t -c /etc/nginx/a.conf",
            "resolve host.example",
            "load host.example",
            "read /etc/nginx/a.conf",
            "backup /etc/nginx/a.conf",
            "write /etc/nginx/a.conf",
            "run nginx -t -c /etc/nginx/a.conf",
            "run systemctl reload nginx",
            "store host.example 10.0.0.2",
            "notify host.example 10.0.0.1 10.0.0.2",
        ]
    );
    assert_eq!(outside.files["/etc/nginx/a.conf"], nginx_doc("10.0.0.2"));
    assert_eq!(outside.record.as_deref(), Some("10.0.0.2"));
}

#[test]
fn same_address_ends_after_the_record_is_read() {
    let mut outside =
        Outside::new(&["10.0.0.1"], Some("10.0.0.1")).with_file("a.conf", &nginx_doc("10.0.0.1"));
    let outcome =
        outside.run_one(DdnsUpdateService::update_ddns(HOST, &nginx_target("a.conf"))).unwrap();
    assert!(matches!(outcome, UpdateResult::NoChange { ip } if ip == "10.0.0.1"));
    assert_eq!(
        outside.asked,
        vec!["run nginx -t -c a.conf", "resolve host.example", "load host.example"]
    );
}

#[test]
fn target_without_the_old_address_is_not_touched() {
    let mut outside = Outside::new(&["10.0.0.2"], Some("10.0.0.1"))
        .with_file("a.conf", &nginx_doc("10.0.0.10"));
    let outcome =
        outside.run_one(DdnsUpdateService::update_ddns(HOST, &nginx_target("a.conf"))).unwrap();
    assert!(matches!(outcome, UpdateResult::NoChange { ip } if ip == "10.0.0.2"));
    assert!(!outside.asked.iter().any(|a| a.starts_with("backup") || a.starts_with("write")));
    assert_eq!(outside.record.as_deref(), Some("10.0.0.1"));
}

#[test]
fn invalid_document_ends_the_run_before_anything_else() {
    let mut outside =
        Outside::new(&["10.0.0.2"], Some("10.0.0.1")).with_file("a.conf", &nginx_doc("10.0.0.1"));
    outside.refused_by_checker.push("a.conf".to_string());
    let error = outside
        .run_one(DdnsUpdateService::update_ddns(HOST, &nginx_target("a.conf")))
        .unwrap_err();
    assert_eq!(error.kind, ErrorKind::InvalidConfig);
    assert_eq!(error.message, "Invalid web server configuration");
    assert_eq!(outside.asked, vec!["run nginx -t -c a.conf"]);
}

#[test]
fn missing_checker_falls_back_on_the_structure() {
    let mut outside =
        Outside::new(&["10.0.0.2"], Some("10.0.0.1")).with_file("a.conf", &nginx_doc("10.0.0.1"));
    outside.checker_installed = false;
    let outcome = outside
        .run_one(DdnsUpdateService::update_ddns_with_options(HOST, &nginx_target("a.conf"), true))
        .unwrap();
    assert!(matches!(outcome, UpdateResult::Updated { .. }));
    assert_eq!(
        outside.asked,
        vec![
            "run nginx -t -c a.conf",
            "read a.conf",
            "resolve host.example",
            "load host.example",
            "read a.conf",
            "backup a.conf",
            "write a.conf",
            "run nginx -t -c a.conf",
            "read a.conf",
            "store host.example 10.0.0.2",
            "notify host.example 10.0.0.1 10.0.0.2",
        ]
    );
}

#[test]
fn missing_checker_and_broken_structure_is_invalid() {
    let mut outside = Outside::new(&["10.0.0.2"], Some("10.0.0.1"))
        .with_file("a.conf", "server {\n    listen 80;\n");
    outside.checker_installed = false;
    let error = outside
        .run_one(DdnsUpdateService::update_ddns(HOST, &nginx_target("a.conf")))
        .unwrap_err();
    assert_eq!(error.kind, ErrorKind::InvalidConfig);
    assert_eq!(error.message, "Invalid web server configuration");
}

#[test]
fn failed_reload_is_no_failure_where_it_may_fail() {
    let mut outside =
        Outside::new(&["10.0.0.2"], Some("10.0.0.1")).with_file("a.conf", &nginx_doc("10.0.0.1"));
    outside.reload_works = false;
    let outcome = outside
        .run_one(DdnsUpdateService::update_ddns_with_policy(
            HOST,
            &nginx_target("a.conf"),
            false,
            false,
        ))
        .unwrap();
    assert!(matches!(outcome, UpdateResult::Updated { .. }));
    assert_eq!(outside.record.as_deref(), Some("10.0.0.2"));
}

#[test]
fn failed_reload_is_fatal_by_default() {
    for target in [
        nginx_target("a.conf"),
        WebServerConfig::new("a.conf".to_string(), WebServerType::Apache),
    ] {
        let document =
            if target.server_type == WebServerType::Apache { apache_doc } else { nginx_doc };
        let mut outside = Outside::new(&["10.0.0.2"], Some("10.0.0.1"))
            .with_file("a.conf", &document("10.0.0.1"));
        outside.reload_works = false;
        let error = outside
            .run_one(DdnsUpdateService::update_ddns_with_options(HOST, &target, false))
            .unwrap_err();
        assert_eq!(error.kind, ErrorKind::ReloadFailed);
        assert_eq!(error.message, "Failed to reload the web server");
        assert_eq!(outside.record.as_deref(), Some("10.0.0.1"));
        assert_eq!(outside.stores, 0);
        assert_eq!(outside.notifications, 0);
        assert!(outside.asked.last().unwrap().starts_with("run systemctl reload"));
    }
}

#[test]
fn no_reload_runs_no_reload_command() {
    let mut outside =
        Outside::new(&["10.0.0.2"], Some("10.0.0.1")).with_file("a.conf", &nginx_doc("10.0.0.1"));
    let outcome = outside
        .run_one(DdnsUpdateService::update_ddns_with_options(HOST, &nginx_target("a.conf"), true))
        .unwrap();
    assert!(matches!(outcome, UpdateResult::Updated { .. }));
    assert!(!outside.asked.iter().any(|a| a.starts_with("run systemctl")));
}

#[test]
fn unreadable_document_is_an_io_error() {
    let mut outside = Outside::new(&["10.0.0.2"], Some("10.0.0.1"));
    let error = outside
        .run_one(DdnsUpdateService::update_ddns(HOST, &nginx_target("gone.conf")))
        .unwrap_err();
    assert_eq!(error.kind, ErrorKind::MutationIoError);
    assert_eq!(error.message, "Configuration not found: gone.conf");
}

#[test]
fn missing_document_and_no_checker_is_an_invalid_configuration() {
    let mut outside = Outside::new(&["10.0.0.2"], Some("10.0.0.1"));
    outside.checker_installed = false;
    let error = outside
        .run_one(DdnsUpdateService::update_ddns(HOST, &nginx_target("gone.conf")))
        .unwrap_err();
    assert_eq!(error.kind, ErrorKind::InvalidConfig);
    assert_eq!(error.message, "Invalid web server configuration");
    assert_eq!(outside.asked, vec!["run nginx -t -c gone.conf", "read gone.conf"]);
}

#[test]
fn address_that_is_no_token_is_never_written() {
    let mut outside = Outside::new(&["10.0.0.2;\nallow all"], Some("10.0.0.1"))
        .with_file("a.conf", &nginx_doc("10.0.0.1"));
    let error = outside
        .run_one(DdnsUpdateService::update_ddns(HOST, &nginx_target("a.conf")))
        .unwrap_err();
    assert_eq!(error.kind, ErrorKind::ResolutionFailed);
    assert_eq!(error.message, "Invalid IP address: 10.0.0.2;\nallow all");
    assert_eq!(outside.files["a.conf"], nginx_doc("10.0.0.1"));
    assert!(!outside.asked.iter().any(|a| a.starts_with("backup") || a.starts_with("write")));
}

#[test]
fn change_that_cannot_be_announced_fails_a_run_of_its_own() {
    let mut outside =
        Outside::new(&["10.0.0.2"], Some("10.0.0.1")).with_file("a.conf", &nginx_doc("10.0.0.1"));
    outside.listener_reachable = false;
    let error = outside
        .run_one(DdnsUpdateService::update_ddns(HOST, &nginx_target("a.conf")))
        .unwrap_err();
    assert_eq!(error.kind, ErrorKind::NotificationFailed);
    assert_eq!(error.message, "nobody listens");
    assert_eq!(outside.record.as_deref(), Some("10.0.0.2"));
}

#[test]
fn unresolved_hostname_fails_the_run() {
    let mut outside = Outside::new(&[], None).with_file("a.conf", &nginx_doc("10.0.0.1"));
    let error = outside
        .run_one(DdnsUpdateService::update_ddns(HOST, &nginx_target("a.conf")))
        .unwrap_err();
    assert_eq!(error.kind, ErrorKind::ResolutionFailed);
    assert_eq!(error.message, "Could not resolve hostname: host.example");
}

#[test]
fn unexpected_answer_ends_the_run() {
    let (run, _) = DdnsUpdateService::update_ddns(HOST, &nginx_target("a.conf"));
    let (run, step) = run.step(Answer::Loaded(None));
    assert!(run.is_finished());
    match step {
        UpdateStep::Finish(Err(e)) => assert_eq!(e.kind, ErrorKind::UnexpectedEvent),
        _ => panic!("the run was waiting for a syntax check"),
    }
}

#[test]
fn apache_target_tries_each_checker_and_each_service() {
    let mut outside = Outside::new(&["10.0.0.2"], Some("10.0.0.1"))
        .with_file("/etc/apache2/site.conf", &apache_doc("10.0.0.1"));
    outside.checker_installed = false;
    outside.reload_works = false;
    let target = WebServerConfig::new("/etc/apache2/site.conf".to_string(), WebServerType::Apache);
    let outcome = outside
        .run_one(DdnsUpdateService::update_ddns_with_policy(HOST, &target, false, false))
        .unwrap();
    match outcome {
        UpdateResult::Updated { backup_path, .. } => {
            assert_eq!(backup_path, "/etc/apache2/site.conf.bak.20240102_030405");
        }
        UpdateResult::NoChange { .. } => panic!("the target holds the old address"),
    }
    assert_eq!(
        outside.asked,
        vec![
            "run apache2ctl -t -f /etc/apache2/site.conf",
            "run apachectl -t -f /etc/apache2/site.conf",
            "run httpd -t -f /etc/apache2/site.conf",
            "read /etc/apache2/site.conf",
            "resolve host.example",
            "load host.example",
            "read /etc/apache2/site.conf",
            "backup /etc/apache2/site.conf",
            "write /etc/apache2/site.conf",
            "run apache2ctl -t -f /etc/apache2/site.conf",
            "run apachectl -t -f /etc/apache2/site.conf",
            "run httpd -t -f /etc/apache2/site.conf",
            "read /etc/apache2/site.conf",
            "run systemctl reload apache2",
            "run systemctl reload httpd",
            "store host.example 10.0.0.2",
            "notify host.example 10.0.0.1 10.0.0.2",
        ]
    );
    assert_eq!(outside.files["/etc/apache2/site.conf"], apache_doc("10.0.0.2"));
}

#[test]
fn unreadable_record_is_a_state_error() {
    let mut outside = Outside::new(&["10.0.0.2"], Some("10.0.0.1"))
        .with_file("a.conf", &nginx_doc("10.0.0.1"));
    outside.record_readable = false;
    let error = outside
        .run_one(DdnsUpdateService::update_ddns(HOST, &nginx_target("a.conf")))
        .unwrap_err();
    assert_eq!(error.kind, ErrorKind::StateIoError);
    assert_eq!(error.message, "record is damaged");
    let result = outside.run_many(DdnsApplication::update_ddns_multiple(
        HOST,
        paths(&["a.conf", "b.conf"]),
        None,
        false,
        false,
    ));
    assert!(result.successes.is_empty());
    assert_eq!(
        result.errors,
        vec![
            ("a.conf".to_string(), "Failed to load stored IP: record is damaged".to_string()),
            ("b.conf".to_string(), "Failed to load stored IP: record is damaged".to_string()),
        ]
    );
}

#[test]
fn unwritable_record_fails_a_run_of_its_own_but_not_a_batch() {
    let mut outside = Outside::new(&["10.0.0.2"], Some("10.0.0.1"))
        .with_file("a.conf", &nginx_doc("10.0.0.1"));
    outside.record_writable = false;
    let error = outside
        .run_one(DdnsUpdateService::update_ddns(HOST, &nginx_target("a.conf")))
        .unwrap_err();
    assert_eq!(error.kind, ErrorKind::StateIoError);
    assert_eq!(error.message, "disk is full");

    let mut outside = Outside::new(&["10.0.0.2"], Some("10.0.0.1"))
        .with_file("a.conf", &nginx_doc("10.0.0.1"));
    outside.record_writable = false;
    let result = outside.run_many(DdnsApplication::update_ddns_multiple(
        HOST,
        paths(&["a.conf"]),
        None,
        false,
        false,
    ));
    assert_eq!(result.successes.len(), 1);
    assert!(result.errors.is_empty());
    assert_eq!(outside.notifications, 1);
}
