use cdd_core::attacks::{SecurityReport, Status};
use cdd_core::error::{CddError, ErrorCode};
use cdd_core::probe::ProbeRequest;
use cdd_core::rules::Rule;
use cdd_core::scanner::{AuditRun, RatelConfig};
use cdd_core::{ResponseContext, ScanScope};
use reqwest::header::{HeaderMap, HeaderName, HeaderValue};

fn reply(
    status: u16,
    fields: &[(&'static str, &'static str)],
) -> Result<ResponseContext, CddError> {
    let mut headers = HeaderMap::new();
    for (name, value) in fields {
        headers.append(HeaderName::from_static(name), HeaderValue::from_static(value));
    }
    Ok(ResponseContext { status, headers })
}

fn config_for(target: &str, scopes: Vec<ScanScope>, ignored: &[&str]) -> RatelConfig {
    RatelConfig {
        target_url: target.to_string(),
        scopes,
        ignored_rules: ignored.iter().map(|id| id.to_string()).collect(),
        failure_policy: "FAIL_BUILD".to_string(),
    }
}

fn drive<F>(
    config: RatelConfig,
    mut answer: F,
) -> (Vec<ProbeRequest>, Result<SecurityReport, CddError>)
where
    F: FnMut(usize, &ProbeRequest) -> Result<ResponseContext, CddError>,
{
    let mut asked = Vec::new();
    let mut run = match AuditRun::begin(config) {
        Ok(run) => run,
        Err(e) => return (asked, Err(e)),
    };
    while let Some(request) = run.pending() {
        let outcome = answer(asked.len(), &request);
        asked.push(request);
        run = match run.deliver(outcome) {
            Ok(run) => run,
            Err(e) => return (asked, Err(e)),
        };
    }
    (asked, Ok(run.into_report()))
}

fn names_of(report: &SecurityReport) -> Vec<&str> {
    report.tests.iter().map(|t| t.name.as_str()).collect()
}

fn statuses_of(report: &SecurityReport) -> Vec<Status> {
    report.tests.iter().map(|t| t.status).collect()
}

fn urls_of(asked: &[ProbeRequest]) -> Vec<&str> {
    asked.iter().map(|r| r.url.as_str()).collect()
}

#[test]
fn empty_target_is_an_internal_error() {
    let (asked, outcome) = drive(
        config_for("", vec![ScanScope::Kernel, ScanScope::Territory], &[]),
        |_, _| reply(200, &[]),
    );
    assert!(asked.is_empty());
    match outcome {
        Err(CddError::InternalError(details)) => assert_eq!(details, "Target is empty"),
        _ => panic!("an empty target must be refused"),
    }
}

#[test]
fn empty_target_is_refused_whatever_else_is_asked() {
    for scopes in [vec![], vec![ScanScope::Kernel], vec![ScanScope::Territory]] {
        let outcome = AuditRun::begin(config_for("", scopes, &["HSTS_MISSING"]));
        match outcome {
            Err(e) => {
                assert_eq!(e.code(), ErrorCode::InternalError);
                assert_eq!(e.details(), "Target is empty");
                assert_eq!(e.message(), "Internal error: Target is empty");
            }
            Ok(_) => panic!("an empty target must be refused"),
        }
    }
}

#[test]
fn no_scopes_gives_an_empty_report() {
    let (asked, outcome) = drive(config_for("http://target.test/", vec![], &[]), |_, _| {
        reply(200, &[])
    });
    assert_eq!(urls_of(&asked), vec!["http://target.test/"]);
    assert!(asked[0].extra_headers.is_empty());
    let report = outcome.unwrap();
    assert!(report.tests.is_empty());
    assert_eq!(report.target, "http://target.test/");
}

#[test]
fn no_scopes_with_ignored_rules_gives_an_empty_report() {
    let (asked, outcome) = drive(
        config_for("http://target.test", vec![], &["CORS_WILD", "ENV_EXPOSED"]),
        |_, _| reply(500, &[("server", "Apache/2.4.1")]),
    );
    assert_eq!(asked.len(), 1);
    assert!(outcome.unwrap().tests.is_empty());
}

#[test]
fn kernel_scope_runs_five_rules_on_two_requests() {
    let (asked, outcome) = drive(
        config_for("https://target.test", vec![ScanScope::Kernel], &[]),
        |step, _| {
            if step == 0 {
                reply(
                    200,
                    &[
                        ("strict-transport-security", "max-age=63072000"),
                        ("x-content-type-options", "sniff"),
                        ("server", "nginx/1.25.3"),
                    ],
                )
            } else {
                reply(200, &[("access-control-allow-origin", "*")])
            }
        },
    );
    assert_eq!(urls_of(&asked), vec!["https://target.test", "https://target.test"]);
    assert!(asked[0].extra_headers.is_empty());
    assert_eq!(
        asked[1].extra_headers,
        vec![("Origin".to_string(), "https://evil.com".to_string())]
    );
    let report = outcome.unwrap();
    assert_eq!(report.target, "https://target.test");
    assert_eq!(
        names_of(&report),
        vec![
            "HSTS: Strict Transport Security",
            "Clickjacking: Frame Embedding Policy",
            "MIME: Content Type Sniffing",
            "Disclosure: Server Software Banner",
            "Gateway: Permissive CORS Policy",
        ]
    );
    assert_eq!(
        statuses_of(&report),
        vec![
            Status::Secure,
            Status::Vulnerable,
            Status::Warning,
            Status::Warning,
            Status::Vulnerable,
        ]
    );
    assert_eq!(report.tests[0].description, "HSTS header is properly configured.");
    assert_eq!(report.tests[4].description, "CORS policy is permissive.");
}

#[test]
fn baseline_rules_do_not_see_the_crafted_response() {
    let (_, outcome) = drive(
        config_for("https://target.test", vec![ScanScope::Kernel], &[]),
        |step, _| {
            if step == 0 {
                reply(200, &[("access-control-allow-origin", "*")])
            } else {
                reply(
                    200,
                    &[
                        ("strict-transport-security", "max-age=1"),
                        ("x-frame-options", "DENY"),
                        ("x-content-type-options", "nosniff"),
                    ],
                )
            }
        },
    );
    assert_eq!(
        statuses_of(&outcome.unwrap()),
        vec![
            Status::Vulnerable,
            Status::Vulnerable,
            Status::Vulnerable,
            Status::Secure,
            Status::Secure,
        ]
    );
}

#[test]
fn territory_scope_probes_each_path() {
    let (asked, outcome) = drive(
        config_for("https://target.test/app//", vec![ScanScope::Territory], &[]),
        |step, request| {
            if step == 0 {
                reply(200, &[])
            } else if request.url.ends_with("/.git/config") {
                reply(200, &[])
            } else if request.url.ends_with("/.env") {
                reply(403, &[])
            } else {
                reply(404, &[])
            }
        },
    );
    assert_eq!(
        urls_of(&asked),
        vec![
            "https://target.test/app//",
            "https://target.test/app/.env",
            "https://target.test/app/.git/config",
            "https://target.test/app/.aws/credentials",
            "https://target.test/app/wp-config.php.bak",
        ]
    );
    for request in &asked {
        assert!(request.extra_headers.is_empty());
    }
    let report = outcome.unwrap();
    assert_eq!(report.target, "https://target.test/app//");
    assert_eq!(
        names_of(&report),
        vec![
            "Business: Sensitive File Exposure (.env)",
            "Business: Sensitive File Exposure (.git/config)",
            "Business: Sensitive File Exposure (.aws/credentials)",
            "Business: Sensitive File Exposure (wp-config.php.bak)",
        ]
    );
    assert_eq!(
        statuses_of(&report),
        vec![Status::Secure, Status::Vulnerable, Status::Secure, Status::Secure]
    );
}

#[test]
fn kernel_comes_before_territory_whatever_the_configuration_says() {
    let (asked, outcome) = drive(
        config_for(
            "http://t.test",
            vec![ScanScope::Territory, ScanScope::Kernel, ScanScope::Territory],
            &[],
        ),
        |_, _| reply(404, &[]),
    );
    assert_eq!(asked.len(), 6);
    let report = outcome.unwrap();
    assert_eq!(
        names_of(&report),
        vec![
            "HSTS: Strict Transport Security",
            "Clickjacking: Frame Embedding Policy",
            "MIME: Content Type Sniffing",
            "Disclosure: Server Software Banner",
            "Gateway: Permissive CORS Policy",
            "Business: Sensitive File Exposure (.env)",
            "Business: Sensitive File Exposure (.git/config)",
            "Business: Sensitive File Exposure (.aws/credentials)",
            "Business: Sensitive File Exposure (wp-config.php.bak)",
        ]
    );
}

#[test]
fn ignored_rules_leave_no_result() {
    let (asked, outcome) = drive(
        config_for(
            "http://t.test",
            vec![ScanScope::Kernel, ScanScope::Territory],
            &["HSTS_MISSING", "ENV_EXPOSED", "NO_SUCH_RULE", "HSTS_MISSING"],
        ),
        |_, _| reply(200, &[]),
    );
    assert_eq!(
        urls_of(&asked),
        vec![
            "http://t.test",
            "http://t.test",
            "http://t.test/.git/config",
            "http://t.test/.aws/credentials",
            "http://t.test/wp-config.php.bak",
        ]
    );
    let report = outcome.unwrap();
    let names = names_of(&report);
    assert!(!names.contains(&"HSTS: Strict Transport Security"));
    assert!(!names.contains(&"Business: Sensitive File Exposure (.env)"));
    assert_eq!(
        names,
        vec![
            "Clickjacking: Frame Embedding Policy",
            "MIME: Content Type Sniffing",
            "Disclosure: Server Software Banner",
            "Gateway: Permissive CORS Policy",
            "Business: Sensitive File Exposure (.git/config)",
            "Business: Sensitive File Exposure (.aws/credentials)",
            "Business: Sensitive File Exposure (wp-config.php.bak)",
        ]
    );
}

#[test]
fn each_rule_can_be_ignored_alone() {
    let all = [
        ("HSTS_MISSING", "HSTS: Strict Transport Security"),
        ("CLICKJACK", "Clickjacking: Frame Embedding Policy"),
        ("MIME_SNIFF", "MIME: Content Type Sniffing"),
        ("SRV_LEAK", "Disclosure: Server Software Banner"),
        ("CORS_WILD", "Gateway: Permissive CORS Policy"),
        ("ENV_EXPOSED", "Business: Sensitive File Exposure (.env)"),
        ("GIT_EXPOSED", "Business: Sensitive File Exposure (.git/config)"),
        ("AWS_CREDS_EXPOSED", "Business: Sensitive File Exposure (.aws/credentials)"),
        ("BACKUP_EXPOSED", "Business: Sensitive File Exposure (wp-config.php.bak)"),
    ];
    for (id, name) in all {
        let (_, outcome) = drive(
            config_for("http://t.test", vec![ScanScope::Kernel, ScanScope::Territory], &[id]),
            |_, _| reply(200, &[]),
        );
        let report = outcome.unwrap();
        let names = names_of(&report);
        assert_eq!(names.len(), 8);
        assert!(!names.contains(&name));
    }
}

#[test]
fn identifiers_are_matched_exactly() {
    let (_, outcome) = drive(
        config_for(
            "http://t.test",
            vec![ScanScope::Kernel],
            &["hsts_missing", "HSTS", " CLICKJACK"],
        ),
        |_, _| reply(200, &[]),
    );
    assert_eq!(outcome.unwrap().tests.len(), 5);
}

#[test]
fn ignoring_the_crafted_rule_saves_its_request() {
    let (asked, outcome) = drive(
        config_for("http://t.test", vec![ScanScope::Kernel], &["CORS_WILD"]),
        |_, _| reply(200, &[]),
    );
    assert_eq!(asked.len(), 1);
    assert_eq!(outcome.unwrap().tests.len(), 4);
}

#[test]
fn ignoring_every_rule_still_asks_for_the_baseline() {
    let (asked, outcome) = drive(
        config_for(
            "http://t.test",
            vec![ScanScope::Kernel],
            &["HSTS_MISSING", "CLICKJACK", "MIME_SNIFF", "SRV_LEAK", "CORS_WILD"],
        ),
        |_, _| reply(200, &[]),
    );
    assert_eq!(asked.len(), 1);
    assert!(outcome.unwrap().tests.is_empty());
}

#[test]
fn refused_connection_on_the_baseline_ends_the_run() {
    let (asked, outcome) = drive(
        config_for("http://t.test", vec![ScanScope::Kernel, ScanScope::Territory], &[]),
        |_, _| Err(CddError::NetworkError("connection refused".to_string())),
    );
    assert_eq!(asked.len(), 1);
    match outcome {
        Err(CddError::NetworkError(details)) => assert_eq!(details, "connection refused"),
        _ => panic!("a failed baseline request must end the run with its fault"),
    }
}

#[test]
fn a_later_failure_ends_the_run_without_a_report() {
    let (asked, outcome) = drive(
        config_for("http://t.test", vec![ScanScope::Kernel, ScanScope::Territory], &[]),
        |step, _| {
            if step == 3 {
                Err(CddError::NetworkError("timed out".to_string()))
            } else {
                reply(200, &[])
            }
        },
    );
    assert_eq!(asked.len(), 4);
    assert_eq!(asked[3].url, "http://t.test/.git/config");
    match outcome {
        Err(e) => {
            assert_eq!(e.code(), ErrorCode::NetworkError);
            assert_eq!(e.details(), "timed out");
        }
        Ok(_) => panic!("a failed request must end the run with its fault"),
    }
}

#[test]
fn every_kind_of_fault_is_handed_on_as_it_came() {
    let faults = [
        (ErrorCode::InvalidUrl, "builder error"),
        (ErrorCode::NetworkError, "dns"),
        (ErrorCode::InternalError, "odd"),
    ];
    for (code, details) in faults {
        let (_, outcome) = drive(config_for("http://t.test", vec![], &[]), |_, _| {
            Err(match code {
                ErrorCode::InvalidUrl => CddError::InvalidUrl(details.to_string()),
                ErrorCode::NetworkError => CddError::NetworkError(details.to_string()),
                ErrorCode::InternalError => CddError::InternalError(details.to_string()),
            })
        });
        match outcome {
            Err(e) => {
                assert_eq!(e.code(), code);
                assert_eq!(e.details(), details);
            }
            Ok(_) => panic!("a failed request must end the run with its fault"),
        }
    }
}

#[test]
fn absent_protections_are_results_not_faults() {
    let (_, outcome) = drive(
        config_for("http://t.test", vec![ScanScope::Kernel, ScanScope::Territory], &[]),
        |_, _| reply(200, &[("access-control-allow-origin", "*"), ("x-powered-by", "PHP")]),
    );
    let report = outcome.unwrap();
    assert_eq!(
        statuses_of(&report),
        vec![
            Status::Vulnerable,
            Status::Vulnerable,
            Status::Vulnerable,
            Status::Warning,
            Status::Vulnerable,
            Status::Vulnerable,
            Status::Vulnerable,
            Status::Vulnerable,
            Status::Vulnerable,
        ]
    );
}

#[test]
fn applicable_rules_follow_scopes_and_ignored_ids() {
    let config = config_for("x", vec![ScanScope::Territory], &["GIT_EXPOSED"]);
    assert_eq!(
        config.applicable_rules(),
        vec![Rule::EnvFile, Rule::AwsCredentials, Rule::BackupConfig]
    );
    assert!(config.has_scope(ScanScope::Territory));
    assert!(!config.has_scope(ScanScope::Kernel));
    assert!(config.ignores("GIT_EXPOSED"));
    assert!(!config.ignores("GIT_EXPOSE"));
    assert!(!config.ignores(""));
    assert!(config_for("", vec![], &[]).applicable_rules().is_empty());
}

#[test]
fn the_target_is_reported_verbatim() {
    for target in ["HTTP://T.test:80/a/../b/?q=1#f", " http://t.test ", "not a url", "/"] {
        let (asked, outcome) = drive(config_for(target, vec![], &[]), |_, _| reply(200, &[]));
        assert_eq!(asked[0].url, target);
        assert_eq!(outcome.unwrap().target, target);
    }
}
