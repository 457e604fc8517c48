//! The catalog of checks: each rule with its identifier, its scope, the
//! request it needs and the verdict it gives on the answer.

use crate::attacks::{Status, TestResult, TestResultView};
use crate::headers::{contains_key, fold_name, get, utf8, value_contains, value_is};
use crate::probe::{
    is_success, origin_request, path_request, plain_request, spec_foreign_origin,
    spec_is_success, ProbeRequest, ProbeRequestView,
};
use crate::{ResponseContext, ResponseView, ScanScope};
use vstd::prelude::*;

verus! {

/// One check of the catalog.
#[derive(Debug, Clone, Copy, PartialEq, Eq, Structural)]
pub enum Rule {
    HstsMissing,
    Clickjack,
    MimeSniff,
    SrvLeak,
    CorsWild,
    EnvFile,
    GitConfig,
    AwsCredentials,
    BackupConfig,
}

/// The catalog: the rules of the kernel scope, then those of the territory
/// scope, each scope in its fixed order.
pub open spec fn spec_catalog() -> Seq<Rule> {
    seq![
        Rule::HstsMissing,
        Rule::Clickjack,
        Rule::MimeSniff,
        Rule::SrvLeak,
        Rule::CorsWild,
        Rule::EnvFile,
        Rule::GitConfig,
        Rule::AwsCredentials,
        Rule::BackupConfig,
    ]
}

/// The catalog, in its fixed order.
pub fn catalog() -> (rules: Vec<Rule>)
    ensures
        rules@ == spec_catalog(),
{
    let mut rules: Vec<Rule> = Vec::new();
    rules.push(Rule::HstsMissing);
    rules.push(Rule::Clickjack);
    rules.push(Rule::MimeSniff);
    rules.push(Rule::SrvLeak);
    rules.push(Rule::CorsWild);
    rules.push(Rule::EnvFile);
    rules.push(Rule::GitConfig);
    rules.push(Rule::AwsCredentials);
    rules.push(Rule::BackupConfig);
    assert(rules@ =~= spec_catalog());
    rules
}

/// Whether the response carries the named header. The name is in lower case.
fn has_field(response: &ResponseContext, name: &str) -> (b: bool)
    requires
        fold_name(name@) == name@,
    ensures
        b == response@.headers.contains_key(name@),
{
    contains_key(&response.headers, name)
}

/// The first value of the named header. The name is in lower case.
fn field(response: &ResponseContext, name: &str) -> (v: Option<Vec<u8>>)
    requires
        fold_name(name@) == name@,
    ensures
        v is Some == response@.headers.contains_key(name@),
        v matches Some(bytes) ==> bytes@ == response@.headers[name@],
{
    get(&response.headers, name)
}

impl Rule {
    /// The place of the rule in the catalog, from 0.
    pub open spec fn spec_position(self) -> int {
        match self {
            Rule::HstsMissing => 0,
            Rule::Clickjack => 1,
            Rule::MimeSniff => 2,
            Rule::SrvLeak => 3,
            Rule::CorsWild => 4,
            Rule::EnvFile => 5,
            Rule::GitConfig => 6,
            Rule::AwsCredentials => 7,
            Rule::BackupConfig => 8,
        }
    }

    /// The stable identifier by which a configuration names the rule.
    pub open spec fn spec_id(self) -> Seq<char> {
        match self {
            Rule::HstsMissing => "HSTS_MISSING"@,
            Rule::Clickjack => "CLICKJACK"@,
            Rule::MimeSniff => "MIME_SNIFF"@,
            Rule::SrvLeak => "SRV_LEAK"@,
            Rule::CorsWild => "CORS_WILD"@,
            Rule::EnvFile => "ENV_EXPOSED"@,
            Rule::GitConfig => "GIT_EXPOSED"@,
            Rule::AwsCredentials => "AWS_CREDS_EXPOSED"@,
            Rule::BackupConfig => "BACKUP_EXPOSED"@,
        }
    }

    /// The stable identifier by which a configuration names the rule.
    pub fn id(self) -> (r: &'static str)
        ensures
            r@ == self.spec_id(),
    {
        match self {
            Rule::HstsMissing => "HSTS_MISSING",
            Rule::Clickjack => "CLICKJACK",
            Rule::MimeSniff => "MIME_SNIFF",
            Rule::SrvLeak => "SRV_LEAK",
            Rule::CorsWild => "CORS_WILD",
            Rule::EnvFile => "ENV_EXPOSED",
            Rule::GitConfig => "GIT_EXPOSED",
            Rule::AwsCredentials => "AWS_CREDS_EXPOSED",
            Rule::BackupConfig => "BACKUP_EXPOSED",
        }
    }

    /// The scope that the rule belongs to.
    pub open spec fn spec_scope(self) -> ScanScope {
        match self {
            Rule::HstsMissing
            | Rule::Clickjack
            | Rule::MimeSniff
            | Rule::SrvLeak
            | Rule::CorsWild => ScanScope::Kernel,
            Rule::EnvFile
            | Rule::GitConfig
            | Rule::AwsCredentials
            | Rule::BackupConfig => ScanScope::Territory,
        }
    }

    /// The scope that the rule belongs to.
    pub fn scope(self) -> (s: ScanScope)
        ensures
            s == self.spec_scope(),
    {
        match self {
            Rule::HstsMissing
            | Rule::Clickjack
            | Rule::MimeSniff
            | Rule::SrvLeak
            | Rule::CorsWild => ScanScope::Kernel,
            Rule::EnvFile
            | Rule::GitConfig
            | Rule::AwsCredentials
            | Rule::BackupConfig => ScanScope::Territory,
        }
    }

    /// The name under which the rule's result stands in a report.
    pub open spec fn spec_name(self) -> Seq<char> {
        match self {
            Rule::HstsMissing => "HSTS: Strict Transport Security"@,
            Rule::Clickjack => "Clickjacking: Frame Embedding Policy"@,
            Rule::MimeSniff => "MIME: Content Type Sniffing"@,
            Rule::SrvLeak => "Disclosure: Server Software Banner"@,
            Rule::CorsWild => "Gateway: Permissive CORS Policy"@,
            Rule::EnvFile => "Business: Sensitive File Exposure (.env)"@,
            Rule::GitConfig => "Business: Sensitive File Exposure (.git/config)"@,
            Rule::AwsCredentials => "Business: Sensitive File Exposure (.aws/credentials)"@,
            Rule::BackupConfig => "Business: Sensitive File Exposure (wp-config.php.bak)"@,
        }
    }

    /// The name under which the rule's result stands in a report.
    pub fn name(self) -> (r: &'static str)
        ensures
            r@ == self.spec_name(),
    {
        match self {
            Rule::HstsMissing => "HSTS: Strict Transport Security",
            Rule::Clickjack => "Clickjacking: Frame Embedding Policy",
            Rule::MimeSniff => "MIME: Content Type Sniffing",
            Rule::SrvLeak => "Disclosure: Server Software Banner",
            Rule::CorsWild => "Gateway: Permissive CORS Policy",
            Rule::EnvFile => "Business: Sensitive File Exposure (.env)",
            Rule::GitConfig => "Business: Sensitive File Exposure (.git/config)",
            Rule::AwsCredentials => "Business: Sensitive File Exposure (.aws/credentials)",
            Rule::BackupConfig => "Business: Sensitive File Exposure (wp-config.php.bak)",
        }
    }

    /// The path below the target that a territory rule asks for. Empty for a
    /// kernel rule.
    pub open spec fn spec_path(self) -> Seq<char> {
        match self {
            Rule::EnvFile => ".env"@,
            Rule::GitConfig => ".git/config"@,
            Rule::AwsCredentials => ".aws/credentials"@,
            Rule::BackupConfig => "wp-config.php.bak"@,
            _ => ""@,
        }
    }

    /// The path below the target that a territory rule asks for.
    pub fn path(self) -> (r: &'static str)
        ensures
            r@ == self.spec_path(),
    {
        match self {
            Rule::EnvFile => ".env",
            Rule::GitConfig => ".git/config",
            Rule::AwsCredentials => ".aws/credentials",
            Rule::BackupConfig => "wp-config.php.bak",
            _ => "",
        }
    }

    /// Whether the rule judges a request of its own. Every other rule judges
    /// the baseline response, the one plain request for the target.
    pub open spec fn spec_needs_probe(self) -> bool {
        self == Rule::CorsWild || self.spec_scope() == ScanScope::Territory
    }

    /// Whether the rule judges a request of its own.
    pub fn needs_probe(self) -> (b: bool)
        ensures
            b == self.spec_needs_probe(),
    {
        match self {
            Rule::HstsMissing | Rule::Clickjack | Rule::MimeSniff | Rule::SrvLeak => false,
            _ => true,
        }
    }

    /// The request whose answer the rule judges.
    pub open spec fn spec_request(self, target: Seq<char>) -> ProbeRequestView {
        if self == Rule::CorsWild {
            origin_request(target, spec_foreign_origin())
        } else if self.spec_scope() == ScanScope::Territory {
            path_request(target, self.spec_path())
        } else {
            plain_request(target)
        }
    }

    /// The request whose answer the rule judges.
    pub fn request(self, target: &str) -> (r: ProbeRequest)
        ensures
            r@ == self.spec_request(target@),
    {
        match self {
            Rule::CorsWild => ProbeRequest::with_origin(target, crate::probe::foreign_origin()),
            Rule::EnvFile | Rule::GitConfig | Rule::AwsCredentials | Rule::BackupConfig => {
                ProbeRequest::for_path(target, self.path())
            },
            _ => ProbeRequest::plain(target),
        }
    }

    /// The verdict of the rule on a response.
    pub open spec fn verdict(self, response: ResponseView) -> Status {
        let headers = response.headers;
        match self {
            Rule::HstsMissing => {
                if headers.contains_key("strict-transport-security"@) {
                    Status::Secure
                } else {
                    Status::Vulnerable
                }
            },
            Rule::Clickjack => {
                if headers.contains_key("x-frame-options"@) || headers.contains_key(
                    "content-security-policy"@,
                ) {
                    Status::Secure
                } else {
                    Status::Vulnerable
                }
            },
            Rule::MimeSniff => {
                if !headers.contains_key("x-content-type-options"@) {
                    Status::Vulnerable
                } else if headers["x-content-type-options"@] == utf8("nosniff"@) {
                    Status::Secure
                } else {
                    Status::Warning
                }
            },
            Rule::SrvLeak => {
                if headers.contains_key("x-powered-by"@) || (headers.contains_key("server"@) && (
                headers["server"@].contains(0x2f) || headers["server"@].len() > 10)) {
                    Status::Warning
                } else {
                    Status::Secure
                }
            },
            Rule::CorsWild => {
                if headers.contains_key("access-control-allow-origin"@) && (
                headers["access-control-allow-origin"@] == utf8("*"@)
                    || headers["access-control-allow-origin"@] == utf8(spec_foreign_origin())) {
                    Status::Vulnerable
                } else {
                    Status::Secure
                }
            },
            Rule::EnvFile | Rule::GitConfig | Rule::AwsCredentials | Rule::BackupConfig => {
                if spec_is_success(response.status) {
                    Status::Vulnerable
                } else {
                    Status::Secure
                }
            },
        }
    }

    /// The verdict of the rule on a response.
    pub fn judge(self, response: &ResponseContext) -> (s: Status)
        ensures
            s == self.verdict(response@),
    {
        match self {
            Rule::HstsMissing => {
                proof {
                    reveal_strlit("strict-transport-security");
                    assert(fold_name("strict-transport-security"@)
                        =~= "strict-transport-security"@);
                }
                if has_field(response, "strict-transport-security") {
                    Status::Secure
                } else {
                    Status::Vulnerable
                }
            },
            Rule::Clickjack => {
                proof {
                    reveal_strlit("x-frame-options");
                    reveal_strlit("content-security-policy");
                    assert(fold_name("x-frame-options"@) =~= "x-frame-options"@);
                    assert(fold_name("content-security-policy"@) =~= "content-security-policy"@);
                }
                if has_field(response, "x-frame-options") || has_field(
                    response,
                    "content-security-policy",
                ) {
                    Status::Secure
                } else {
                    Status::Vulnerable
                }
            },
            Rule::MimeSniff => {
                proof {
                    reveal_strlit("x-content-type-options");
                    assert(fold_name("x-content-type-options"@) =~= "x-content-type-options"@);
                }
                match field(response, "x-content-type-options") {
                    None => Status::Vulnerable,
                    Some(value) => {
                        if value_is(&value, "nosniff") {
                            Status::Secure
                        } else {
                            Status::Warning
                        }
                    },
                }
            },
            Rule::SrvLeak => {
                proof {
                    reveal_strlit("x-powered-by");
                    reveal_strlit("server");
                    assert(fold_name("x-powered-by"@) =~= "x-powered-by"@);
                    assert(fold_name("server"@) =~= "server"@);
                }
                if has_field(response, "x-powered-by") {
                    Status::Warning
                } else {
                    match field(response, "server") {
                        None => Status::Secure,
                        Some(value) => {
                            if value_contains(&value, 0x2f) || value.len() > 10 {
                                Status::Warning
                            } else {
                                Status::Secure
                            }
                        },
                    }
                }
            },
            Rule::CorsWild => {
                proof {
                    reveal_strlit("access-control-allow-origin");
                    assert(fold_name("access-control-allow-origin"@)
                        =~= "access-control-allow-origin"@);
                }
                match field(response, "access-control-allow-origin") {
                    None => Status::Secure,
                    Some(value) => {
                        if value_is(&value, "*") || value_is(
                            &value,
                            crate::probe::foreign_origin(),
                        ) {
                            Status::Vulnerable
                        } else {
                            Status::Secure
                        }
                    },
                }
            },
            Rule::EnvFile | Rule::GitConfig | Rule::AwsCredentials | Rule::BackupConfig => {
                if is_success(response.status) {
                    Status::Vulnerable
                } else {
                    Status::Secure
                }
            },
        }
    }

    /// What a result of the rule says beside a verdict.
    pub open spec fn spec_description(self, status: Status) -> Seq<char> {
        match (self, status) {
            (Rule::HstsMissing, Status::Secure) => "HSTS header is properly configured."@,
            (Rule::HstsMissing, _) => "HSTS header is missing (MITM risk)."@,
            (Rule::Clickjack, Status::Secure) => "Framing by other sites is restricted."@,
            (Rule::Clickjack, _) => "No framing policy is set (clickjacking risk)."@,
            (Rule::MimeSniff, Status::Secure) => "Content type sniffing is disabled."@,
            (Rule::MimeSniff, Status::Warning) => "X-Content-Type-Options is not set to nosniff."@,
            (Rule::MimeSniff, Status::Vulnerable) => "X-Content-Type-Options header is missing."@,
            (Rule::SrvLeak, Status::Secure) => "No server software details are disclosed."@,
            (Rule::SrvLeak, _) => "Response headers disclose server software details."@,
            (Rule::CorsWild, Status::Secure) => "CORS policy rejects unknown origins."@,
            (Rule::CorsWild, _) => "CORS policy is permissive."@,
            (Rule::EnvFile, Status::Secure) => "No .env file detected."@,
            (Rule::EnvFile, _) => "CRITICAL: .env file is accessible."@,
            (Rule::GitConfig, Status::Secure) => "No .git/config file detected."@,
            (Rule::GitConfig, _) => "CRITICAL: .git/config file is accessible."@,
            (Rule::AwsCredentials, Status::Secure) => "No .aws/credentials file detected."@,
            (Rule::AwsCredentials, _) => "CRITICAL: .aws/credentials file is accessible."@,
            (Rule::BackupConfig, Status::Secure) => "No wp-config.php.bak file detected."@,
            (Rule::BackupConfig, _) => "CRITICAL: wp-config.php.bak file is accessible."@,
        }
    }

    /// What a result of the rule says beside a verdict.
    pub fn description(self, status: Status) -> (r: &'static str)
        ensures
            r@ == self.spec_description(status),
    {
        match (self, status) {
            (Rule::HstsMissing, Status::Secure) => "HSTS header is properly configured.",
            (Rule::HstsMissing, _) => "HSTS header is missing (MITM risk).",
            (Rule::Clickjack, Status::Secure) => "Framing by other sites is restricted.",
            (Rule::Clickjack, _) => "No framing policy is set (clickjacking risk).",
            (Rule::MimeSniff, Status::Secure) => "Content type sniffing is disabled.",
            (Rule::MimeSniff, Status::Warning) => "X-Content-Type-Options is not set to nosniff.",
            (Rule::MimeSniff, Status::Vulnerable) => "X-Content-Type-Options header is missing.",
            (Rule::SrvLeak, Status::Secure) => "No server software details are disclosed.",
            (Rule::SrvLeak, _) => "Response headers disclose server software details.",
            (Rule::CorsWild, Status::Secure) => "CORS policy rejects unknown origins.",
            (Rule::CorsWild, _) => "CORS policy is permissive.",
            (Rule::EnvFile, Status::Secure) => "No .env file detected.",
            (Rule::EnvFile, _) => "CRITICAL: .env file is accessible.",
            (Rule::GitConfig, Status::Secure) => "No .git/config file detected.",
            (Rule::GitConfig, _) => "CRITICAL: .git/config file is accessible.",
            (Rule::AwsCredentials, Status::Secure) => "No .aws/credentials file detected.",
            (Rule::AwsCredentials, _) => "CRITICAL: .aws/credentials file is accessible.",
            (Rule::BackupConfig, Status::Secure) => "No wp-config.php.bak file detected.",
            (Rule::BackupConfig, _) => "CRITICAL: wp-config.php.bak file is accessible.",
        }
    }

    /// The result of the rule on a response: its name, its verdict, and the
    /// description that goes with the verdict.
    pub open spec fn outcome(self, response: ResponseView) -> TestResultView {
        TestResultView {
            name: self.spec_name(),
            status: self.verdict(response),
            description: self.spec_description(self.verdict(response)),
        }
    }

    /// Evaluates the rule on the response to its request. The result starts
    /// out secure, and the verdict escalates it.
    pub fn evaluate(self, response: &ResponseContext) -> (r: TestResult)
        ensures
            r@ == self.outcome(response@),
    {
        let mut result = TestResult::secure(self.name(), self.description(Status::Secure));
        let status = self.judge(response);
        result.escalate(status, self.description(status));
        result
    }
}

/// Two rules of one name are one rule.
pub proof fn lemma_rule_names_distinct(a: Rule, b: Rule)
    requires
        a.spec_name() == b.spec_name(),
    ensures
        a == b,
{
    reveal_strlit("HSTS: Strict Transport Security");
    reveal_strlit("Clickjacking: Frame Embedding Policy");
    reveal_strlit("MIME: Content Type Sniffing");
    reveal_strlit("Disclosure: Server Software Banner");
    reveal_strlit("Gateway: Permissive CORS Policy");
    reveal_strlit("Business: Sensitive File Exposure (.env)");
    reveal_strlit("Business: Sensitive File Exposure (.git/config)");
    reveal_strlit("Business: Sensitive File Exposure (.aws/credentials)");
    reveal_strlit("Business: Sensitive File Exposure (wp-config.php.bak)");
    assert(Rule::HstsMissing.spec_name().len() == 31 && Rule::HstsMissing.spec_name()[0] == 'H');
    assert(Rule::Clickjack.spec_name().len() == 36);
    assert(Rule::MimeSniff.spec_name().len() == 27);
    assert(Rule::SrvLeak.spec_name().len() == 34);
    assert(Rule::CorsWild.spec_name().len() == 31 && Rule::CorsWild.spec_name()[0] == 'G');
    assert(Rule::EnvFile.spec_name().len() == 40);
    assert(Rule::GitConfig.spec_name().len() == 47);
    assert(Rule::AwsCredentials.spec_name().len() == 52);
    assert(Rule::BackupConfig.spec_name().len() == 53);
}

/// Two rules of one identifier are one rule: to ignore a rule leaves every
/// other rule in place.
pub proof fn lemma_rule_ids_distinct(a: Rule, b: Rule)
    requires
        a.spec_id() == b.spec_id(),
    ensures
        a == b,
{
    reveal_strlit("HSTS_MISSING");
    reveal_strlit("CLICKJACK");
    reveal_strlit("MIME_SNIFF");
    reveal_strlit("SRV_LEAK");
    reveal_strlit("CORS_WILD");
    reveal_strlit("ENV_EXPOSED");
    reveal_strlit("GIT_EXPOSED");
    reveal_strlit("AWS_CREDS_EXPOSED");
    reveal_strlit("BACKUP_EXPOSED");
    assert(Rule::HstsMissing.spec_id().len() == 12);
    assert(Rule::Clickjack.spec_id().len() == 9 && Rule::Clickjack.spec_id()[1] == 'L');
    assert(Rule::MimeSniff.spec_id().len() == 10);
    assert(Rule::SrvLeak.spec_id().len() == 8);
    assert(Rule::CorsWild.spec_id().len() == 9 && Rule::CorsWild.spec_id()[1] == 'O');
    assert(Rule::EnvFile.spec_id().len() == 11 && Rule::EnvFile.spec_id()[0] == 'E');
    assert(Rule::GitConfig.spec_id().len() == 11 && Rule::GitConfig.spec_id()[0] == 'G');
    assert(Rule::AwsCredentials.spec_id().len() == 17);
    assert(Rule::BackupConfig.spec_id().len() == 14);
}

/// The catalog holds every rule at the place that `spec_position` gives, so
/// every rule once, with the kernel rules before the territory rules.
pub proof fn lemma_catalog_is_complete(rule: Rule)
    ensures
        0 <= rule.spec_position() < spec_catalog().len(),
        spec_catalog()[rule.spec_position()] == rule,
        rule.spec_scope() == ScanScope::Kernel <==> rule.spec_position() < 5,
{
}

/// The HSTS rule finds a response without a `strict-transport-security`
/// header vulnerable, and one with that header secure, whatever its value.
pub proof fn lemma_hsts_verdict(response: ResponseView)
    ensures
        Rule::HstsMissing.outcome(response).status == if response.headers.contains_key(
            "strict-transport-security"@,
        ) {
            Status::Secure
        } else {
            Status::Vulnerable
        },
{
}

/// The CORS rule finds vulnerable exactly the response whose
/// `access-control-allow-origin` is `*` or the foreign origin of the request.
pub proof fn lemma_cors_verdict(response: ResponseView)
    ensures
        Rule::CorsWild.outcome(response).status == Status::Vulnerable <==> (
        response.headers.contains_key("access-control-allow-origin"@) && (
        response.headers["access-control-allow-origin"@] == utf8("*"@)
            || response.headers["access-control-allow-origin"@] == utf8("https://evil.com"@))),
        Rule::CorsWild.outcome(response).status != Status::Vulnerable ==> Rule::CorsWild.outcome(
            response,
        ).status == Status::Secure,
{
}

/// Whatever the response, a rule's result bears the rule's name, and its
/// description is the one that goes with its verdict.
pub proof fn lemma_outcome_is_consistent(rule: Rule, response: ResponseView)
    ensures
        rule.outcome(response).name == rule.spec_name(),
        rule.outcome(response).description == rule.spec_description(
            rule.outcome(response).status,
        ),
        rule == Rule::SrvLeak ==> rule.outcome(response).status != Status::Vulnerable,
        rule != Rule::SrvLeak && rule != Rule::MimeSniff ==> rule.outcome(response).status
            != Status::Warning,
{
}

} // verus!
