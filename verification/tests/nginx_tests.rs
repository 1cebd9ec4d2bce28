use ddns_updater::config::nginx::{
    is_nginx_config_content, is_nginx_config_file, validate_nginx_config_file,
};

const BASIC_SERVER: &str = "server {\n    listen 80;\n    server_name example.com;\n\n    location / {\n        root /var/www/html;\n        index index.html;\n    }\n}\n";

const COMPLEX_SSL: &str = "upstream backend {\n    server 127.0.0.1:3000;\n}\n\nserver {\n    listen 443 ssl;\n    server_name api.example.com;\n    ssl_certificate /etc/ssl/certs/api.pem;\n\n    location /api {\n        proxy_pass http://backend;\n        allow 10.0.0.1;\n        deny all;\n    }\n}\n";

const FULL_NGINX: &str = "events {\n    worker_connections 1024;\n}\n\nhttp {\n    server {\n        listen 80;\n        server_name test.com;\n    }\n}\n";

const MINIMAL_VALID: &str = "server {\n    listen 80;\n}\n";

const PLAIN_TEXT: &str = "This is just plain text with no nginx directives.";

const NO_BRACES: &str = "server example.com\nlisten 80\nroot /var/www\n";

const ONLY_COMMENTS: &str = "# This is a comment\n# server_name example.com;\n# All lines are commented\n";

const INSUFFICIENT_STRUCTURE: &str = "server_name example.com;\n# Not enough structure";

const JSON_FILE: &str = "{\n    \"name\": \"test\",\n    \"server\": \"not nginx\"\n}\n";

const EMPTY_FILE: &str = "";

/// What reading one of the sample files gives.
fn read(path: &str) -> Result<String, String> {
    let content = match path {
        "test_configs/valid/basic_server.conf" => BASIC_SERVER,
        "test_configs/valid/complex_ssl.conf" => COMPLEX_SSL,
        "test_configs/valid/full_nginx.conf" => FULL_NGINX,
        "test_configs/valid/minimal_valid.conf" => MINIMAL_VALID,
        "test_configs/invalid/plain_text.conf" => PLAIN_TEXT,
        "test_configs/invalid/no_braces.conf" => NO_BRACES,
        "test_configs/invalid/only_comments.conf" => ONLY_COMMENTS,
        "test_configs/invalid/insufficient_structure.conf" => INSUFFICIENT_STRUCTURE,
        "test_configs/invalid/json_file.conf" => JSON_FILE,
        "test_configs/invalid/empty_file.conf" => EMPTY_FILE,
        _ => return Err("No such file or directory (os error 2)".to_string()),
    };
    Ok(content.to_string())
}

fn is_sample(path: &str) -> bool {
    read(path).is_ok()
}

#[test]
fn test_is_nginx_config_content_valid_configs() {
    // Test basic server block
    let basic_server = r#"
server {
    listen 80;
    server_name example.com;
    
    location / {
        root /var/www/html;
        index index.html;
    }
}
"#;
    assert!(
        is_nginx_config_content(basic_server),
        "Basic server block should be valid"
    );

    // Test complex config with upstream
    let complex_config = r#"
upstream backend {
    server 127.0.0.1:3000;
}

server {
    listen 443 ssl;
    server_name api.example.com;
    
    location /api {
        proxy_pass http://backend;
        allow 10.0.0.1;
        deny all;
    }
}
"#;
    assert!(
        is_nginx_config_content(complex_config),
        "Complex config should be valid"
    );

    // Test minimal valid config
    let minimal_config = r#"
server {
    listen 80;
    location / {
        return 200 "OK";
    }
}
"#;
    assert!(
        is_nginx_config_content(minimal_config),
        "Minimal config should be valid"
    );

    // Test events block
    let events_config = r#"
events {
    worker_connections 1024;
}

http {
    server {
        listen 80;
        server_name test.com;
    }
}
"#;
    assert!(
        is_nginx_config_content(events_config),
        "Events config should be valid"
    );
}

#[test]
fn test_is_nginx_config_content_invalid_configs() {
    // Test plain text
    let plain_text = "This is just plain text with no nginx directives.";
    assert!(
        !is_nginx_config_content(plain_text),
        "Plain text should be invalid"
    );

    // Test config without braces
    let no_braces = r#"
server example.com
listen 80
root /var/www
"#;
    assert!(
        !is_nginx_config_content(no_braces),
        "Config without braces should be invalid"
    );

    // Test only comments
    let only_comments = r#"
# This is a comment
# server_name example.com;
# All lines are commented
"#;
    assert!(
        !is_nginx_config_content(only_comments),
        "Only comments should be invalid"
    );

    // Test insufficient structure
    let insufficient = "server_name example.com;\n# Not enough structure";
    assert!(
        !is_nginx_config_content(insufficient),
        "Insufficient structure should be invalid"
    );

    // Test empty content
    assert!(
        !is_nginx_config_content(""),
        "Empty content should be invalid"
    );

    // Test JSON (has braces but no nginx directives)
    let json_content = r#"
{
    "name": "test",
    "server": "not nginx"
}
"#;
    assert!(
        !is_nginx_config_content(json_content),
        "JSON should be invalid"
    );
}

#[test]
fn test_nginx_config_files_in_test_directory() {
    let valid_configs = [
        "test_configs/valid/basic_server.conf",
        "test_configs/valid/complex_ssl.conf",
        "test_configs/valid/full_nginx.conf",
        "test_configs/valid/minimal_valid.conf",
    ];

    for config_path in &valid_configs {
        if is_sample(config_path) {
            match is_nginx_config_file(read(config_path)) {
                Ok(is_valid) => {
                    assert!(
                        is_valid,
                        "Valid config file {} should pass validation",
                        config_path
                    );
                }
                Err(e) => {
                    panic!("Failed to validate {}: {}", config_path, e);
                }
            }
        }
    }

    let invalid_configs = [
        "test_configs/invalid/plain_text.conf",
        "test_configs/invalid/no_braces.conf",
        "test_configs/invalid/only_comments.conf",
        "test_configs/invalid/insufficient_structure.conf",
        "test_configs/invalid/json_file.conf",
        "test_configs/invalid/empty_file.conf",
    ];

    for config_path in &invalid_configs {
        if is_sample(config_path) {
            match is_nginx_config_file(read(config_path)) {
                Ok(is_valid) => {
                    assert!(
                        !is_valid,
                        "Invalid config file {} should fail validation",
                        config_path
                    );
                }
                Err(e) => {
                    panic!("Failed to read {}: {}", config_path, e);
                }
            }
        }
    }
}

#[test]
fn test_validate_nginx_config_file_function() {
    if is_sample("test_configs/valid/basic_server.conf") {
        assert!(
            validate_nginx_config_file(
                "test_configs/valid/basic_server.conf",
                true,
                read("test_configs/valid/basic_server.conf")
            )
            .is_ok(),
            "Valid config should pass validation function"
        );
    }

    if is_sample("test_configs/invalid/plain_text.conf") {
        assert!(
            validate_nginx_config_file(
                "test_configs/invalid/plain_text.conf",
                true,
                read("test_configs/invalid/plain_text.conf")
            )
            .is_err(),
            "Invalid config should fail validation function"
        );
    }

    assert!(
        validate_nginx_config_file(
            "non_existent_file.conf",
            is_sample("non_existent_file.conf"),
            read("non_existent_file.conf")
        )
        .is_err(),
        "Non-existent file should fail validation"
    );
}

#[test]
fn test_nginx_directive_detection() {
    // Test that various nginx directives are detected
    let directives_test = r#"
server {
    listen 443 ssl http2;
    server_name example.com www.example.com;
    root /var/www/html;
    index index.html index.htm;
    
    error_log /var/log/nginx/error.log;
    access_log /var/log/nginx/access.log;
    
    gzip on;
    client_max_body_size 100M;
    
    location / {
        try_files $uri $uri/ =404;
        add_header X-Frame-Options DENY;
    }
    
    location ~ \.php$ {
        fastcgi_pass unix:/var/run/php/php-fpm.sock;
        include fastcgi_params;
    }
    
    if ($scheme != "https") {
        return 301 https://$host$request_uri;
    }
}
"#;
    assert!(
        is_nginx_config_content(directives_test),
        "Config with various directives should be valid"
    );
}

#[test]
fn test_edge_cases() {
    // Test config with only whitespace and comments
    let whitespace_comments = r#"
        
        # Comment 1
        
        # Comment 2
        
        "#;
    assert!(
        !is_nginx_config_content(whitespace_comments),
        "Only whitespace and comments should be invalid"
    );

    // Test config with braces but no nginx directives
    let braces_no_directives = r#"
        {
            "key": "value",
            "array": [1, 2, 3]
        }
        "#;
    assert!(
        !is_nginx_config_content(braces_no_directives),
        "Braces without nginx directives should be invalid"
    );

    // Test minimal valid config (exactly at threshold)
    let minimal_threshold = r#"
server {
    listen 80;
}
"#;
    assert!(
        is_nginx_config_content(minimal_threshold),
        "Minimal threshold config should be valid"
    );
}
