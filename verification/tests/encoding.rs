use csrgen::config::CSRConfig;
use csrgen::subject::{csr_path, key_path, openssl_args};

fn sample_config() -> CSRConfig {
    CSRConfig {
        country: "US".to_string(),
        state_or_province: "CA".to_string(),
        locality: "SF".to_string(),
        org_name: "Acme".to_string(),
        common_name: "acme.test".to_string(),
        email: Some("a@b.com".to_string()),
        password: Some("secret".to_string()),
    }
}

#[test]
fn subject_string_exact() {
    assert_eq!(
        sample_config().to_string(),
        "/C=US/ST=CA/L=SF/O=Acme/OU=acme.test/CN=acme.test/emailAddress=secret"
    );
}

#[test]
fn subject_string_empty_email_slot() {
    let mut config = sample_config();
    config.email = None;
    config.password = None;
    assert_eq!(
        config.to_string(),
        "/C=US/ST=CA/L=SF/O=Acme/OU=acme.test/CN=acme.test/emailAddress="
    );
}

#[test]
fn subject_string_ignores_email() {
    let mut with_email = sample_config();
    let mut without_email = sample_config();
    with_email.email = Some("someone@example.com".to_string());
    without_email.email = None;
    assert_eq!(with_email.to_string(), without_email.to_string());
}

#[test]
fn output_paths_from_common_name() {
    assert_eq!(key_path("foo"), "foo.key");
    assert_eq!(csr_path("foo"), "foo.csr");
}

#[test]
fn toolkit_argument_list() {
    let args = openssl_args(&sample_config());
    assert_eq!(
        args,
        vec![
            "req",
            "-newkey",
            "rsa:2048",
            "-nodes",
            "-keyout",
            "acme.test.key",
            "-out",
            "acme.test.csr",
            "-subj",
            "/C=US/ST=CA/L=SF/O=Acme/OU=acme.test/CN=acme.test/emailAddress=secret",
        ]
    );
}
