//! Pre-built security rules based on the OWASP Top 10 (2021).
use vstd::prelude::*;
use super::rules::{rule_category, rule_severity, Fix, Pattern, Rule, RuleMetadata, RuleSet, RuleView, TestCase};
use crate::config::model::{opt_text, texts};

verus! {

/// The facts of a rule that the catalog relies on: identifier, metadata
/// name, severity, confidence and category, languages, pattern texts,
/// number of test cases and whether it suggests a fix.
pub struct RuleSummary {
    pub id: Seq<char>,
    pub name: Seq<char>,
    pub severity: Seq<char>,
    pub confidence: Seq<char>,
    pub category: Seq<char>,
    pub languages: Seq<Seq<char>>,
    pub patterns: Seq<Seq<char>>,
    pub description: Option<Seq<char>>,
    pub cwe: Option<Seq<Seq<char>>>,
    pub owasp: Option<Seq<Seq<char>>>,
    pub pattern_messages: Seq<Seq<char>>,
    pub has_where_clause: bool,
    /// The fix, as its template and its message
    pub fix: Option<(Seq<char>, Seq<char>)>,
    /// The test cases, each as its name, its code and whether it should match
    pub tests: Option<Seq<(Seq<char>, Seq<char>, bool)>>,
}

/// The summary of a rule.
pub open spec fn rule_summary(r: Rule) -> RuleSummary {
    RuleSummary {
        id: r.id@,
        name: match r.metadata {
            Some(m) => m.name@,
            None => Seq::empty(),
        },
        severity: match r.metadata {
            Some(m) => m.severity@,
            None => Seq::empty(),
        },
        confidence: match r.metadata {
            Some(m) => m.confidence@,
            None => Seq::empty(),
        },
        category: match r.metadata {
            Some(m) => match m.category {
                Some(c) => c@,
                None => Seq::empty(),
            },
            None => Seq::empty(),
        },
        languages: texts(r.languages@),
        patterns: r.patterns@.map_values(|p: Pattern| p.pattern@),
        description: match r.metadata {
            Some(m) => match m.description {
                Some(d) => Some(d@),
                None => None,
            },
            None => None,
        },
        cwe: match r.metadata {
            Some(m) => match m.cwe {
                Some(v) => Some(texts(v@)),
                None => None,
            },
            None => None,
        },
        owasp: match r.metadata {
            Some(m) => match m.owasp {
                Some(v) => Some(texts(v@)),
                None => None,
            },
            None => None,
        },
        pattern_messages: r.patterns@.map_values(|p: Pattern| p.message@),
        has_where_clause: r.where_clause is Some,
        fix: match r.fix {
            Some(f) => Some((f.template@, f.message@)),
            None => None,
        },
        tests: match r.tests {
            Some(t) => Some(t@.map_values(|c: TestCase| (c.name@, c.code@, c.should_match))),
            None => None,
        },
    }
}

/// The summary of the catalog rule OWASP-A01-001.
pub open spec fn a01_summary() -> RuleSummary {
    RuleSummary {
        id: "OWASP-A01-001"@,
        name: "Direct Object Reference Without Authorization"@,
        severity: "critical"@,
        confidence: "high"@,
        category: "A01-BrokenAccessControl"@,
        languages: seq!["python"@, "javascript"@, "java"@],
        patterns: seq!["$USER.get($ID)"@, "user[$ID]"@],
        description: Some("Detects direct object references without proper access control checks"@),
        cwe: Some(seq!["639"@, "862"@]),
        owasp: Some(seq!["A01:2021"@]),
        pattern_messages: seq!["Direct object reference without authorization check"@, "Potential direct object reference"@],
        has_where_clause: false,
        fix: None,
        tests: Some(seq![
            ("Detects direct reference"@, "data = user.get(user_id)"@, true),
            ("No false positive with check"@, "if is_authorized(user_id): data = user.get(user_id)"@, false),
        ]),
    }
}

/// The summary of the catalog rule OWASP-A02-001.
pub open spec fn a02_summary() -> RuleSummary {
    RuleSummary {
        id: "OWASP-A02-001"@,
        name: "Use of Weak Cryptographic Hash"@,
        severity: "major"@,
        confidence: "high"@,
        category: "A02-CryptoFailures"@,
        languages: seq!["python"@, "javascript"@],
        patterns: seq!["hashlib.md5"@, "hashlib.sha1"@, "CryptoJS.MD5"@],
        description: Some("Detects use of weak or outdated cryptographic hash functions"@),
        cwe: Some(seq!["327"@]),
        owasp: Some(seq!["A02:2021"@]),
        pattern_messages: seq!["MD5 is cryptographically broken"@, "SHA1 is cryptographically weak"@, "MD5 is cryptographically broken"@],
        has_where_clause: false,
        fix: Some(("Use SHA-256 or stronger hash functions"@, "Replace with cryptographically secure hash function"@)),
        tests: Some(seq![
            ("Detects MD5 usage"@, "import hashlib; hashlib.md5(b'data')"@, true),
            ("Detects SHA1 usage"@, "hashlib.sha1(b'data')"@, true),
        ]),
    }
}

/// The summary of the catalog rule OWASP-A03-001.
pub open spec fn a03_summary() -> RuleSummary {
    RuleSummary {
        id: "OWASP-A03-001"@,
        name: "SQL Injection via String Concatenation"@,
        severity: "critical"@,
        confidence: "high"@,
        category: "A03-Injection"@,
        languages: seq!["python"@, "javascript"@, "java"@],
        patterns: seq!["execute($SQL + $VAR)"@, "execute(f\"...{$VAR}...\")"@, "execute($SQL % $VAR)"@],
        description: Some("Detects SQL injection vulnerabilities through string concatenation or formatting"@),
        cwe: Some(seq!["89"@]),
        owasp: Some(seq!["A03:2021"@]),
        pattern_messages: seq!["SQL injection via string concatenation"@, "SQL injection via f-string formatting"@, "SQL injection via % formatting"@],
        has_where_clause: false,
        fix: Some(("Use parameterized queries"@, "Replace with parameterized queries to prevent SQL injection"@)),
        tests: Some(seq![
            ("Detects concatenation SQL injection"@, "db.execute('SELECT * FROM users WHERE id = ' + user_id)"@, true),
            ("Detects f-string SQL injection"@, "db.execute(f'SELECT * FROM users WHERE id = {user_id}')"@, true),
            ("No false positive for safe query"@, "db.execute('SELECT * FROM users WHERE id = ?', (user_id,))"@, false),
        ]),
    }
}

/// The summary of the catalog rule OWASP-A04-001.
pub open spec fn a04_summary() -> RuleSummary {
    RuleSummary {
        id: "OWASP-A04-001"@,
        name: "Missing Rate Limiting"@,
        severity: "major"@,
        confidence: "medium"@,
        category: "A04-InsecureDesign"@,
        languages: seq!["python"@, "javascript"@, "java"@],
        patterns: seq!["def login"@, "def authenticate"@],
        description: Some("Detects missing rate limiting on authentication endpoints"@),
        cwe: Some(seq!["307"@]),
        owasp: Some(seq!["A04:2021"@]),
        pattern_messages: seq!["Login endpoint without explicit rate limiting"@, "Authentication endpoint without rate limiting"@],
        has_where_clause: false,
        fix: Some(("Implement rate limiting (e.g., 5 attempts per minute)"@, "Add rate limiting to prevent brute force attacks"@)),
        tests: None,
    }
}

/// The summary of the catalog rule OWASP-A05-001.
pub open spec fn a05_summary() -> RuleSummary {
    RuleSummary {
        id: "OWASP-A05-001"@,
        name: "Debug Mode Enabled in Production"@,
        severity: "major"@,
        confidence: "high"@,
        category: "A05-SecurityMisconfiguration"@,
        languages: seq!["python"@, "javascript"@],
        patterns: seq!["DEBUG = True"@, "app.run(debug=True)"@],
        description: Some("Detects debug mode or development features in production code"@),
        cwe: Some(seq!["489"@]),
        owasp: Some(seq!["A05:2021"@]),
        pattern_messages: seq!["Debug mode enabled (production security risk)"@, "Debug mode enabled in server startup"@],
        has_where_clause: false,
        fix: Some(("Set DEBUG = False in production"@, "Disable debug mode in production environments"@)),
        tests: Some(seq![
            ("Detects debug flag"@, "DEBUG = True"@, true),
        ]),
    }
}

/// The summary of the catalog rule OWASP-A06-001.
pub open spec fn a06_summary() -> RuleSummary {
    RuleSummary {
        id: "OWASP-A06-001"@,
        name: "Use of Outdated Package Version"@,
        severity: "critical"@,
        confidence: "high"@,
        category: "A06-VulnerableComponents"@,
        languages: seq!["python"@, "javascript"@, "java"@],
        patterns: seq!["django==2.2"@, "requests==2.6.0"@],
        description: Some("Detects use of packages with known vulnerabilities"@),
        cwe: Some(seq!["1104"@]),
        owasp: Some(seq!["A06:2021"@]),
        pattern_messages: seq!["Django 2.2 has known vulnerabilities (EOL)"@, "Old version of requests library"@],
        has_where_clause: false,
        fix: Some(("Update to latest secure version"@, "Update package to latest secure version"@)),
        tests: None,
    }
}

/// The summary of the catalog rule OWASP-A07-001.
pub open spec fn a07_summary() -> RuleSummary {
    RuleSummary {
        id: "OWASP-A07-001"@,
        name: "Default or Weak Credentials"@,
        severity: "critical"@,
        confidence: "high"@,
        category: "A07-AuthenticationFailures"@,
        languages: seq!["python"@, "javascript"@, "java"@],
        patterns: seq!["password = \"admin\""@, "password = \"password\""@],
        description: Some("Detects use of default or weak passwords"@),
        cwe: Some(seq!["521"@]),
        owasp: Some(seq!["A07:2021"@]),
        pattern_messages: seq!["Default admin password detected"@, "Weak default password detected"@],
        has_where_clause: false,
        fix: Some(("Use strong, unique passwords"@, "Replace with strong, unique password"@)),
        tests: Some(seq![
            ("Detects default password"@, "password = \"admin\""@, true),
        ]),
    }
}

/// The summary of the catalog rule OWASP-A08-001.
pub open spec fn a08_summary() -> RuleSummary {
    RuleSummary {
        id: "OWASP-A08-001"@,
        name: "Unsigned/Unverified Data Deserialization"@,
        severity: "critical"@,
        confidence: "high"@,
        category: "A08-IntegrityFailures"@,
        languages: seq!["python"@, "javascript"@, "java"@],
        patterns: seq!["pickle.loads($DATA)"@, "eval($USER_INPUT)"@],
        description: Some("Detects unsafe deserialization without integrity checks"@),
        cwe: Some(seq!["502"@]),
        owasp: Some(seq!["A08:2021"@]),
        pattern_messages: seq!["Unsafe deserialization with pickle"@, "Code injection via eval()"@],
        has_where_clause: false,
        fix: Some(("Use safe deserialization with integrity checks"@, "Replace with safe deserialization"@)),
        tests: Some(seq![
            ("Detects pickle deserialization"@, "pickle.loads(data)"@, true),
        ]),
    }
}

/// The summary of the catalog rule OWASP-A09-001.
pub open spec fn a09_summary() -> RuleSummary {
    RuleSummary {
        id: "OWASP-A09-001"@,
        name: "Missing Security Event Logging"@,
        severity: "minor"@,
        confidence: "medium"@,
        category: "A09-LoggingFailures"@,
        languages: seq!["python"@, "javascript"@, "java"@],
        patterns: seq!["def login"@],
        description: Some("Detects missing logging for security-critical events"@),
        cwe: Some(seq!["778"@]),
        owasp: Some(seq!["A09:2021"@]),
        pattern_messages: seq!["Login function without security event logging"@],
        has_where_clause: false,
        fix: Some(("Add security event logging"@, "Log authentication events for security monitoring"@)),
        tests: None,
    }
}

/// The summary of the catalog rule OWASP-A10-001.
pub open spec fn a10_summary() -> RuleSummary {
    RuleSummary {
        id: "OWASP-A10-001"@,
        name: "Unvalidated URL Request"@,
        severity: "major"@,
        confidence: "high"@,
        category: "A10-SSRF"@,
        languages: seq!["python"@, "javascript"@, "java"@],
        patterns: seq!["requests.get($URL)"@, "urllib.request.urlopen($URL)"@],
        description: Some("Detects server-side requests without proper URL validation"@),
        cwe: Some(seq!["918"@]),
        owasp: Some(seq!["A10:2021"@]),
        pattern_messages: seq!["HTTP request without URL validation"@, "URL request without validation"@],
        has_where_clause: false,
        fix: Some(("Validate and sanitize URL before request"@, "Add URL validation to prevent SSRF attacks"@)),
        tests: Some(seq![
            ("Detects unvalidated request"@, "requests.get(user_url)"@, true),
        ]),
    }
}

/// Create Broken Access Control rules (A01)
pub fn create_broken_access_control_rules() -> (r: Rule)
    ensures
        rule_summary(r) == a01_summary(),
{
    broadcast use vstd::string::group_string_axioms;
    let r =
        Rule {
            id: "OWASP-A01-001".to_string(),
            metadata: Some(RuleMetadata {
                name: "Direct Object Reference Without Authorization".to_string(),
                description: Some(
                    "Detects direct object references without proper access control checks"
                        .to_string(),
                ),
                severity: "critical".to_string(),
                confidence: "high".to_string(),
                category: Some("A01-BrokenAccessControl".to_string()),
                cwe: Some(vec!["639".to_string(), "862".to_string()]),
                owasp: Some(vec!["A01:2021".to_string()]),
            }),
            languages: vec![
                "python".to_string(),
                "javascript".to_string(),
                "java".to_string(),
            ],
            patterns: vec![
                Pattern {
                    pattern: "$USER.get($ID)".to_string(),
                    message: "Direct object reference without authorization check".to_string(),
                },
                Pattern {
                    pattern: "user[$ID]".to_string(),
                    message: "Potential direct object reference".to_string(),
                },
            ],
            where_clause: None,
            fix: None,
            tests: Some(vec![
                TestCase {
                    name: "Detects direct reference".to_string(),
                    code: "data = user.get(user_id)".to_string(),
                    should_match: true,
                },
                TestCase {
                    name: "No false positive with check".to_string(),
                    code: "if is_authorized(user_id): data = user.get(user_id)".to_string(),
                    should_match: false,
                },
            ]),
        };
    assert(rule_summary(r).languages =~= a01_summary().languages);
    assert(rule_summary(r).patterns =~= a01_summary().patterns);
    assert(rule_summary(r).pattern_messages =~= a01_summary().pattern_messages);
    assert(rule_summary(r).cwe->0 =~= a01_summary().cwe->0);
    assert(rule_summary(r).owasp->0 =~= a01_summary().owasp->0);
    assert(rule_summary(r).tests->0 =~= a01_summary().tests->0);
    r
}

/// Create Cryptographic Failures rules (A02)
pub fn create_crypto_failures_rules() -> (r: Rule)
    ensures
        rule_summary(r) == a02_summary(),
{
    broadcast use vstd::string::group_string_axioms;
    let r =
        Rule {
            id: "OWASP-A02-001".to_string(),
            metadata: Some(RuleMetadata {
                name: "Use of Weak Cryptographic Hash".to_string(),
                description: Some(
                    "Detects use of weak or outdated cryptographic hash functions".to_string(),
                ),
                severity: "major".to_string(),
                confidence: "high".to_string(),
                category: Some("A02-CryptoFailures".to_string()),
                cwe: Some(vec!["327".to_string()]),
                owasp: Some(vec!["A02:2021".to_string()]),
            }),
            languages: vec!["python".to_string(), "javascript".to_string()],
            patterns: vec![
                Pattern {
                    pattern: "hashlib.md5".to_string(),
                    message: "MD5 is cryptographically broken".to_string(),
                },
                Pattern {
                    pattern: "hashlib.sha1".to_string(),
                    message: "SHA1 is cryptographically weak".to_string(),
                },
                Pattern {
                    pattern: "CryptoJS.MD5".to_string(),
                    message: "MD5 is cryptographically broken".to_string(),
                },
            ],
            where_clause: None,
            fix: Some(Fix {
                template: "Use SHA-256 or stronger hash functions".to_string(),
                message: "Replace with cryptographically secure hash function".to_string(),
            }),
            tests: Some(vec![
                TestCase {
                    name: "Detects MD5 usage".to_string(),
                    code: "import hashlib; hashlib.md5(b'data')".to_string(),
                    should_match: true,
                },
                TestCase {
                    name: "Detects SHA1 usage".to_string(),
                    code: "hashlib.sha1(b'data')".to_string(),
                    should_match: true,
                },
            ]),
        };
    assert(rule_summary(r).languages =~= a02_summary().languages);
    assert(rule_summary(r).patterns =~= a02_summary().patterns);
    assert(rule_summary(r).pattern_messages =~= a02_summary().pattern_messages);
    assert(rule_summary(r).cwe->0 =~= a02_summary().cwe->0);
    assert(rule_summary(r).owasp->0 =~= a02_summary().owasp->0);
    assert(rule_summary(r).tests->0 =~= a02_summary().tests->0);
    r
}

/// Create Injection rules (A03)
pub fn create_injection_rules() -> (r: Rule)
    ensures
        rule_summary(r) == a03_summary(),
{
    broadcast use vstd::string::group_string_axioms;
    let r =
        Rule {
            id: "OWASP-A03-001".to_string(),
            metadata: Some(RuleMetadata {
                name: "SQL Injection via String Concatenation".to_string(),
                description: Some("Detects SQL injection vulnerabilities through string concatenation or formatting".to_string()),
                severity: "critical".to_string(),
                confidence: "high".to_string(),
                category: Some("A03-Injection".to_string()),
                cwe: Some(vec!["89".to_string()]),
                owasp: Some(vec!["A03:2021".to_string()]),
            }),
            languages: vec!["python".to_string(), "javascript".to_string(), "java".to_string()],
            patterns: vec![
                Pattern {
                    pattern: "execute($SQL + $VAR)".to_string(),
                    message: "SQL injection via string concatenation".to_string(),
                },
                Pattern {
                    pattern: "execute(f\"...{$VAR}...\")".to_string(),
                    message: "SQL injection via f-string formatting".to_string(),
                },
                Pattern {
                    pattern: "execute($SQL % $VAR)".to_string(),
                    message: "SQL injection via % formatting".to_string(),
                },
            ],
            where_clause: None,
            fix: Some(Fix {
                template: "Use parameterized queries".to_string(),
                message: "Replace with parameterized queries to prevent SQL injection".to_string(),
            }),
            tests: Some(vec![
                TestCase {
                    name: "Detects concatenation SQL injection".to_string(),
                    code: "db.execute('SELECT * FROM users WHERE id = ' + user_id)".to_string(),
                    should_match: true,
                },
                TestCase {
                    name: "Detects f-string SQL injection".to_string(),
                    code: "db.execute(f'SELECT * FROM users WHERE id = {user_id}')".to_string(),
                    should_match: true,
                },
                TestCase {
                    name: "No false positive for safe query".to_string(),
                    code: "db.execute('SELECT * FROM users WHERE id = ?', (user_id,))".to_string(),
                    should_match: false,
                },
            ]),
        };
    assert(rule_summary(r).languages =~= a03_summary().languages);
    assert(rule_summary(r).patterns =~= a03_summary().patterns);
    assert(rule_summary(r).pattern_messages =~= a03_summary().pattern_messages);
    assert(rule_summary(r).cwe->0 =~= a03_summary().cwe->0);
    assert(rule_summary(r).owasp->0 =~= a03_summary().owasp->0);
    assert(rule_summary(r).tests->0 =~= a03_summary().tests->0);
    r
}

/// Create Insecure Design rules (A04)
pub fn create_insecure_design_rules() -> (r: Rule)
    ensures
        rule_summary(r) == a04_summary(),
{
    broadcast use vstd::string::group_string_axioms;
    let r =
        Rule {
            id: "OWASP-A04-001".to_string(),
            metadata: Some(RuleMetadata {
                name: "Missing Rate Limiting".to_string(),
                description: Some(
                    "Detects missing rate limiting on authentication endpoints".to_string(),
                ),
                severity: "major".to_string(),
                confidence: "medium".to_string(),
                category: Some("A04-InsecureDesign".to_string()),
                cwe: Some(vec!["307".to_string()]),
                owasp: Some(vec!["A04:2021".to_string()]),
            }),
            languages: vec![
                "python".to_string(),
                "javascript".to_string(),
                "java".to_string(),
            ],
            patterns: vec![
                Pattern {
                    pattern: "def login".to_string(),
                    message: "Login endpoint without explicit rate limiting".to_string(),
                },
                Pattern {
                    pattern: "def authenticate".to_string(),
                    message: "Authentication endpoint without rate limiting".to_string(),
                },
            ],
            where_clause: None,
            fix: Some(Fix {
                template: "Implement rate limiting (e.g., 5 attempts per minute)".to_string(),
                message: "Add rate limiting to prevent brute force attacks".to_string(),
            }),
            tests: None,
        };
    assert(rule_summary(r).languages =~= a04_summary().languages);
    assert(rule_summary(r).patterns =~= a04_summary().patterns);
    assert(rule_summary(r).pattern_messages =~= a04_summary().pattern_messages);
    assert(rule_summary(r).cwe->0 =~= a04_summary().cwe->0);
    assert(rule_summary(r).owasp->0 =~= a04_summary().owasp->0);
    r
}

/// Create Security Misconfiguration rules (A05)
pub fn create_misconfiguration_rules() -> (r: Rule)
    ensures
        rule_summary(r) == a05_summary(),
{
    broadcast use vstd::string::group_string_axioms;
    let r =
        Rule {
            id: "OWASP-A05-001".to_string(),
            metadata: Some(RuleMetadata {
                name: "Debug Mode Enabled in Production".to_string(),
                description: Some(
                    "Detects debug mode or development features in production code".to_string(),
                ),
                severity: "major".to_string(),
                confidence: "high".to_string(),
                category: Some("A05-SecurityMisconfiguration".to_string()),
                cwe: Some(vec!["489".to_string()]),
                owasp: Some(vec!["A05:2021".to_string()]),
            }),
            languages: vec!["python".to_string(), "javascript".to_string()],
            patterns: vec![
                Pattern {
                    pattern: "DEBUG = True".to_string(),
                    message: "Debug mode enabled (production security risk)".to_string(),
                },
                Pattern {
                    pattern: "app.run(debug=True)".to_string(),
                    message: "Debug mode enabled in server startup".to_string(),
                },
            ],
            where_clause: None,
            fix: Some(Fix {
                template: "Set DEBUG = False in production".to_string(),
                message: "Disable debug mode in production environments".to_string(),
            }),
            tests: Some(vec![TestCase {
                name: "Detects debug flag".to_string(),
                code: "DEBUG = True".to_string(),
                should_match: true,
            }]),
        };
    assert(rule_summary(r).languages =~= a05_summary().languages);
    assert(rule_summary(r).patterns =~= a05_summary().patterns);
    assert(rule_summary(r).pattern_messages =~= a05_summary().pattern_messages);
    assert(rule_summary(r).cwe->0 =~= a05_summary().cwe->0);
    assert(rule_summary(r).owasp->0 =~= a05_summary().owasp->0);
    assert(rule_summary(r).tests->0 =~= a05_summary().tests->0);
    r
}

/// Create Vulnerable Components rules (A06)
pub fn create_vulnerable_components_rules() -> (r: Rule)
    ensures
        rule_summary(r) == a06_summary(),
{
    broadcast use vstd::string::group_string_axioms;
    let r =
        Rule {
            id: "OWASP-A06-001".to_string(),
            metadata: Some(RuleMetadata {
                name: "Use of Outdated Package Version".to_string(),
                description: Some("Detects use of packages with known vulnerabilities".to_string()),
                severity: "critical".to_string(),
                confidence: "high".to_string(),
                category: Some("A06-VulnerableComponents".to_string()),
                cwe: Some(vec!["1104".to_string()]),
                owasp: Some(vec!["A06:2021".to_string()]),
            }),
            languages: vec![
                "python".to_string(),
                "javascript".to_string(),
                "java".to_string(),
            ],
            patterns: vec![
                Pattern {
                    pattern: "django==2.2".to_string(),
                    message: "Django 2.2 has known vulnerabilities (EOL)".to_string(),
                },
                Pattern {
                    pattern: "requests==2.6.0".to_string(),
                    message: "Old version of requests library".to_string(),
                },
            ],
            where_clause: None,
            fix: Some(Fix {
                template: "Update to latest secure version".to_string(),
                message: "Update package to latest secure version".to_string(),
            }),
            tests: None,
        };
    assert(rule_summary(r).languages =~= a06_summary().languages);
    assert(rule_summary(r).patterns =~= a06_summary().patterns);
    assert(rule_summary(r).pattern_messages =~= a06_summary().pattern_messages);
    assert(rule_summary(r).cwe->0 =~= a06_summary().cwe->0);
    assert(rule_summary(r).owasp->0 =~= a06_summary().owasp->0);
    r
}

/// Create Authentication Failures rules (A07)
pub fn create_auth_failures_rules() -> (r: Rule)
    ensures
        rule_summary(r) == a07_summary(),
{
    broadcast use vstd::string::group_string_axioms;
    let r =
        Rule {
            id: "OWASP-A07-001".to_string(),
            metadata: Some(RuleMetadata {
                name: "Default or Weak Credentials".to_string(),
                description: Some("Detects use of default or weak passwords".to_string()),
                severity: "critical".to_string(),
                confidence: "high".to_string(),
                category: Some("A07-AuthenticationFailures".to_string()),
                cwe: Some(vec!["521".to_string()]),
                owasp: Some(vec!["A07:2021".to_string()]),
            }),
            languages: vec![
                "python".to_string(),
                "javascript".to_string(),
                "java".to_string(),
            ],
            patterns: vec![
                Pattern {
                    pattern: "password = \"admin\"".to_string(),
                    message: "Default admin password detected".to_string(),
                },
                Pattern {
                    pattern: "password = \"password\"".to_string(),
                    message: "Weak default password detected".to_string(),
                },
            ],
            where_clause: None,
            fix: Some(Fix {
                template: "Use strong, unique passwords".to_string(),
                message: "Replace with strong, unique password".to_string(),
            }),
            tests: Some(vec![TestCase {
                name: "Detects default password".to_string(),
                code: "password = \"admin\"".to_string(),
                should_match: true,
            }]),
        };
    assert(rule_summary(r).languages =~= a07_summary().languages);
    assert(rule_summary(r).patterns =~= a07_summary().patterns);
    assert(rule_summary(r).pattern_messages =~= a07_summary().pattern_messages);
    assert(rule_summary(r).cwe->0 =~= a07_summary().cwe->0);
    assert(rule_summary(r).owasp->0 =~= a07_summary().owasp->0);
    assert(rule_summary(r).tests->0 =~= a07_summary().tests->0);
    r
}

/// Create Software and Data Integrity Failures rules (A08)
pub fn create_integrity_failures_rules() -> (r: Rule)
    ensures
        rule_summary(r) == a08_summary(),
{
    broadcast use vstd::string::group_string_axioms;
    let r =
        Rule {
            id: "OWASP-A08-001".to_string(),
            metadata: Some(RuleMetadata {
                name: "Unsigned/Unverified Data Deserialization".to_string(),
                description: Some(
                    "Detects unsafe deserialization without integrity checks".to_string(),
                ),
                severity: "critical".to_string(),
                confidence: "high".to_string(),
                category: Some("A08-IntegrityFailures".to_string()),
                cwe: Some(vec!["502".to_string()]),
                owasp: Some(vec!["A08:2021".to_string()]),
            }),
            languages: vec![
                "python".to_string(),
                "javascript".to_string(),
                "java".to_string(),
            ],
            patterns: vec![
                Pattern {
                    pattern: "pickle.loads($DATA)".to_string(),
                    message: "Unsafe deserialization with pickle".to_string(),
                },
                Pattern {
                    pattern: "eval($USER_INPUT)".to_string(),
                    message: "Code injection via eval()".to_string(),
                },
            ],
            where_clause: None,
            fix: Some(Fix {
                template: "Use safe deserialization with integrity checks".to_string(),
                message: "Replace with safe deserialization".to_string(),
            }),
            tests: Some(vec![TestCase {
                name: "Detects pickle deserialization".to_string(),
                code: "pickle.loads(data)".to_string(),
                should_match: true,
            }]),
        };
    assert(rule_summary(r).languages =~= a08_summary().languages);
    assert(rule_summary(r).patterns =~= a08_summary().patterns);
    assert(rule_summary(r).pattern_messages =~= a08_summary().pattern_messages);
    assert(rule_summary(r).cwe->0 =~= a08_summary().cwe->0);
    assert(rule_summary(r).owasp->0 =~= a08_summary().owasp->0);
    assert(rule_summary(r).tests->0 =~= a08_summary().tests->0);
    r
}

/// Create Logging and Monitoring Failures rules (A09)
pub fn create_logging_failures_rules() -> (r: Rule)
    ensures
        rule_summary(r) == a09_summary(),
{
    broadcast use vstd::string::group_string_axioms;
    let r =
        Rule {
            id: "OWASP-A09-001".to_string(),
            metadata: Some(RuleMetadata {
                name: "Missing Security Event Logging".to_string(),
                description: Some(
                    "Detects missing logging for security-critical events".to_string(),
                ),
                severity: "minor".to_string(),
                confidence: "medium".to_string(),
                category: Some("A09-LoggingFailures".to_string()),
                cwe: Some(vec!["778".to_string()]),
                owasp: Some(vec!["A09:2021".to_string()]),
            }),
            languages: vec![
                "python".to_string(),
                "javascript".to_string(),
                "java".to_string(),
            ],
            patterns: vec![Pattern {
                pattern: "def login".to_string(),
                message: "Login function without security event logging".to_string(),
            }],
            where_clause: None,
            fix: Some(Fix {
                template: "Add security event logging".to_string(),
                message: "Log authentication events for security monitoring".to_string(),
            }),
            tests: None,
        };
    assert(rule_summary(r).languages =~= a09_summary().languages);
    assert(rule_summary(r).patterns =~= a09_summary().patterns);
    assert(rule_summary(r).pattern_messages =~= a09_summary().pattern_messages);
    assert(rule_summary(r).cwe->0 =~= a09_summary().cwe->0);
    assert(rule_summary(r).owasp->0 =~= a09_summary().owasp->0);
    r
}

/// Create Server-Side Request Forgery rules (A10)
pub fn create_ssrf_rules() -> (r: Rule)
    ensures
        rule_summary(r) == a10_summary(),
{
    broadcast use vstd::string::group_string_axioms;
    let r =
        Rule {
            id: "OWASP-A10-001".to_string(),
            metadata: Some(RuleMetadata {
                name: "Unvalidated URL Request".to_string(),
                description: Some(
                    "Detects server-side requests without proper URL validation".to_string(),
                ),
                severity: "major".to_string(),
                confidence: "high".to_string(),
                category: Some("A10-SSRF".to_string()),
                cwe: Some(vec!["918".to_string()]),
                owasp: Some(vec!["A10:2021".to_string()]),
            }),
            languages: vec![
                "python".to_string(),
                "javascript".to_string(),
                "java".to_string(),
            ],
            patterns: vec![
                Pattern {
                    pattern: "requests.get($URL)".to_string(),
                    message: "HTTP request without URL validation".to_string(),
                },
                Pattern {
                    pattern: "urllib.request.urlopen($URL)".to_string(),
                    message: "URL request without validation".to_string(),
                },
            ],
            where_clause: None,
            fix: Some(Fix {
                template: "Validate and sanitize URL before request".to_string(),
                message: "Add URL validation to prevent SSRF attacks".to_string(),
            }),
            tests: Some(vec![TestCase {
                name: "Detects unvalidated request".to_string(),
                code: "requests.get(user_url)".to_string(),
                should_match: true,
            }]),
        };
    assert(rule_summary(r).languages =~= a10_summary().languages);
    assert(rule_summary(r).patterns =~= a10_summary().patterns);
    assert(rule_summary(r).pattern_messages =~= a10_summary().pattern_messages);
    assert(rule_summary(r).cwe->0 =~= a10_summary().cwe->0);
    assert(rule_summary(r).owasp->0 =~= a10_summary().owasp->0);
    assert(rule_summary(r).tests->0 =~= a10_summary().tests->0);
    r
}

/// The views of a sequence of rules.
pub open spec fn rule_views(rs: Seq<Rule>) -> Seq<RuleView> {
    rs.map_values(|r: Rule| r@)
}

/// The category under which the catalog files a rule: its metadata
/// category, or `uncategorized`.
pub open spec fn filing_category(r: Rule) -> Seq<char> {
    match rule_category(r) {
        Some(c) => c,
        None => "uncategorized"@,
    }
}

/// The category index of the catalog as plain values.
pub open spec fn category_entries(bc: Seq<(String, Vec<String>)>) -> Seq<(Seq<char>, Seq<Seq<char>>)> {
    bc.map_values(|e: (String, Vec<String>)| (e.0@, texts(e.1@)))
}

/// Index of the first entry for `category`, or -1 when there is none.
pub open spec fn category_index(es: Seq<(Seq<char>, Seq<Seq<char>>)>, category: Seq<char>) -> int
    decreases es.len(),
{
    if es.len() == 0 {
        -1
    } else if es[0].0 == category {
        0
    } else {
        let k = category_index(es.drop_first(), category);
        if k < 0 {
            -1
        } else {
            k + 1
        }
    }
}

/// What `category_index` finds.
pub proof fn lemma_category_index(es: Seq<(Seq<char>, Seq<Seq<char>>)>, category: Seq<char>)
    ensures
        -1 <= category_index(es, category) < es.len(),
        category_index(es, category) == -1 <==> forall|j: int| 0 <= j < es.len() ==> #[trigger] es[j].0 != category,
        category_index(es, category) >= 0 ==> es[category_index(es, category)].0 == category,
        forall|j: int| 0 <= j < category_index(es, category) ==> #[trigger] es[j].0 != category,
    decreases es.len(),
{
    if es.len() > 0 && es[0].0 != category {
        let rest = es.drop_first();
        lemma_category_index(rest, category);
        if category_index(rest, category) == -1 {
            assert forall|j: int| 0 <= j < es.len() implies #[trigger] es[j].0 != category by {
                if j > 0 {
                    assert(rest[j - 1].0 != category);
                }
            }
        }
        assert forall|j: int| 0 <= j < category_index(es, category) implies #[trigger] es[j].0 != category by {
            if j > 0 {
                assert(rest[j - 1].0 != category);
            }
        }
    }
}

/// The category index after filing `id` under `category`: appended to the
/// category's list, or a new entry at the end.
pub open spec fn file_under(es: Seq<(Seq<char>, Seq<Seq<char>>)>, category: Seq<char>, id: Seq<char>) -> Seq<(Seq<char>, Seq<Seq<char>>)> {
    let j = category_index(es, category);
    if j >= 0 {
        es.update(j, (es[j].0, es[j].1.push(id)))
    } else {
        es.push((category, seq![id]))
    }
}

/// The rules after adding `rule`: it replaces the rule with the same
/// identifier, or is appended.
pub open spec fn with_rule(rs: Seq<Rule>, rule: Rule) -> Seq<Rule> {
    let k = super::rules::rule_index(rs, rule.id@);
    if k >= 0 {
        rs.update(k, rule)
    } else {
        rs.push(rule)
    }
}

/// The views of the rules that `ids` name, in order, skipping identifiers
/// with no rule.
pub open spec fn rules_named(rs: Seq<Rule>, ids: Seq<Seq<char>>) -> Seq<RuleView>
    decreases ids.len(),
{
    if ids.len() == 0 {
        Seq::empty()
    } else {
        let prev = rules_named(rs, ids.drop_last());
        let k = super::rules::rule_index(rs, ids.last());
        if k >= 0 {
            prev.push(rs[k]@)
        } else {
            prev
        }
    }
}

/// Rule counts per severity, in order of first appearance; rules without
/// metadata are not counted.
pub open spec fn severity_counts(rs: Seq<Rule>) -> Seq<(Seq<char>, nat)>
    decreases rs.len(),
{
    if rs.len() == 0 {
        Seq::empty()
    } else {
        let prev = severity_counts(rs.drop_last());
        match rule_severity(rs.last()) {
            Some(sev) => {
                let j = severity_index(prev, sev);
                if j >= 0 {
                    prev.update(j, (sev, prev[j].1 + 1))
                } else {
                    prev.push((sev, 1nat))
                }
            },
            None => prev,
        }
    }
}

/// Index of the entry for `sev`, or -1 when there is none.
pub open spec fn severity_index(es: Seq<(Seq<char>, nat)>, sev: Seq<char>) -> int
    decreases es.len(),
{
    if es.len() == 0 {
        -1
    } else if es[0].0 == sev {
        0
    } else {
        let k = severity_index(es.drop_first(), sev);
        if k < 0 {
            -1
        } else {
            k + 1
        }
    }
}

/// What `severity_index` finds.
pub proof fn lemma_severity_index(es: Seq<(Seq<char>, nat)>, sev: Seq<char>)
    ensures
        -1 <= severity_index(es, sev) < es.len(),
        severity_index(es, sev) == -1 <==> forall|j: int| 0 <= j < es.len() ==> #[trigger] es[j].0 != sev,
        severity_index(es, sev) >= 0 ==> es[severity_index(es, sev)].0 == sev,
        forall|j: int| 0 <= j < severity_index(es, sev) ==> #[trigger] es[j].0 != sev,
    decreases es.len(),
{
    if es.len() > 0 && es[0].0 != sev {
        let rest = es.drop_first();
        lemma_severity_index(rest, sev);
        if severity_index(rest, sev) == -1 {
            assert forall|j: int| 0 <= j < es.len() implies #[trigger] es[j].0 != sev by {
                if j > 0 {
                    assert(rest[j - 1].0 != sev);
                }
            }
        }
        assert forall|j: int| 0 <= j < severity_index(es, sev) implies #[trigger] es[j].0 != sev by {
            if j > 0 {
                assert(rest[j - 1].0 != sev);
            }
        }
    }
}

/// Statistics about the OWASP catalog.
#[derive(Debug)]
pub struct OWASPCatalogStats {
    pub total_rules: usize,
    pub by_category: usize,
    pub by_severity: Vec<(String, usize)>,
}

/// The severity counts as plain values.
pub open spec fn count_entries(v: Seq<(String, usize)>) -> Seq<(Seq<char>, nat)> {
    v.map_values(|e: (String, usize)| (e.0@, e.1 as nat))
}

/// Catalog of OWASP Top 10 rules: the rules, with distinct identifiers,
/// and the identifiers filed under each category.
#[derive(Debug)]
pub struct OWASPRuleCatalog {
    pub rules: Vec<Rule>,
    pub by_category: Vec<(String, Vec<String>)>,
}

fn find_rule(rules: &Vec<Rule>, id: &String) -> (r: Option<usize>)
    ensures
        match r {
            Some(k) => super::rules::rule_index(rules@, id@) == k as int,
            None => super::rules::rule_index(rules@, id@) == -1,
        },
{
    proof {
        super::rules::lemma_rule_index(rules@, id@);
    }
    for j in 0..rules.len()
        invariant
            forall|i: int| 0 <= i < j ==> #[trigger] rules@[i].id@ != id@,
            -1 <= super::rules::rule_index(rules@, id@) < rules@.len(),
            super::rules::rule_index(rules@, id@) == -1 <==> forall|i: int| 0 <= i < rules@.len() ==> #[trigger] rules@[i].id@ != id@,
            super::rules::rule_index(rules@, id@) >= 0 ==> rules@[super::rules::rule_index(rules@, id@)].id@ == id@,
            forall|i: int| 0 <= i < super::rules::rule_index(rules@, id@) ==> #[trigger] rules@[i].id@ != id@,
    {
        if rules[j].id == *id {
            assert(rules@[j as int].id@ == id@);
            return Some(j);
        }
        assert(rules@[j as int].id@ != id@);
    }
    None
}

fn find_category(bc: &Vec<(String, Vec<String>)>, category: &String) -> (r: Option<usize>)
    ensures
        match r {
            Some(k) => category_index(category_entries(bc@), category@) == k as int,
            None => category_index(category_entries(bc@), category@) == -1,
        },
{
    let ghost es = category_entries(bc@);
    proof {
        lemma_category_index(es, category@);
    }
    for j in 0..bc.len()
        invariant
            es == category_entries(bc@),
            forall|i: int| 0 <= i < j ==> #[trigger] es[i].0 != category@,
            -1 <= category_index(es, category@) < es.len(),
            category_index(es, category@) == -1 <==> forall|i: int| 0 <= i < es.len() ==> #[trigger] es[i].0 != category@,
            category_index(es, category@) >= 0 ==> es[category_index(es, category@)].0 == category@,
            forall|i: int| 0 <= i < category_index(es, category@) ==> #[trigger] es[i].0 != category@,
    {
        if bc[j].0 == *category {
            assert(es[j as int].0 == category@);
            return Some(j);
        }
        assert(es[j as int].0 != category@);
    }
    None
}

impl OWASPRuleCatalog {
    /// Whether no two rules of the catalog share an identifier.
    pub open spec fn ids_distinct(&self) -> bool {
        forall|i: int, j: int|
            0 <= i < self.rules@.len() && 0 <= j < self.rules@.len() && i != j ==> self.rules@[i].id@
                != self.rules@[j].id@
    }

    /// Add a rule: it replaces the rule with the same identifier or is
    /// appended, and its identifier is filed under its category.
    fn add_rule(&mut self, rule: Rule)
        ensures
            final(self).rules@ == with_rule(old(self).rules@, rule),
            category_entries(final(self).by_category@) == file_under(
                category_entries(old(self).by_category@),
                filing_category(rule),
                rule.id@,
            ),
    {
        let category = match &rule.metadata {
            Some(m) => match &m.category {
                Some(c) => c.clone(),
                None => String::from_str("uncategorized"),
            },
            None => String::from_str("uncategorized"),
        };
        let id = rule.id.clone();
        let ghost es = category_entries(self.by_category@);
        match find_category(&self.by_category, &category) {
            Some(j) => {
                proof {
                    lemma_category_index(es, category@);
                }
                let ghost old_ids = self.by_category@[j as int].1@;
                let mut entry = (String::new(), Vec::new());
                std::mem::swap(&mut entry, &mut self.by_category[j]);
                entry.1.push(id.clone());
                assert(texts(entry.1@) =~= texts(old_ids).push(id@));
                self.by_category.set(j, entry);
                assert(category_entries(self.by_category@) =~= file_under(es, category@, id@));
            },
            None => {
                let mut ids = Vec::new();
                ids.push(id.clone());
                assert(texts(ids@) =~= seq![id@]);
                self.by_category.push((category, ids));
                assert(category_entries(self.by_category@) =~= file_under(es, category@, id@));
            },
        }
        match find_rule(&self.rules, &id) {
            Some(k) => {
                proof {
                    super::rules::lemma_rule_index(self.rules@, id@);
                }
                self.rules.set(k, rule);
            },
            None => {
                self.rules.push(rule);
            },
        }
    }
}

/// The summaries of the catalog rules, A01 to A10.
pub open spec fn catalog_summaries() -> Seq<RuleSummary> {
    seq![a01_summary(), a02_summary(), a03_summary(), a04_summary(), a05_summary(), a06_summary(), a07_summary(), a08_summary(), a09_summary(), a10_summary()]
}

/// The category index of the full catalog: each category with its rule.
pub open spec fn catalog_categories(n: int) -> Seq<(Seq<char>, Seq<Seq<char>>)> {
    catalog_summaries().take(n).map_values(|s: RuleSummary| (s.category, seq![s.id]))
}

/// The identifiers and the categories of the catalog rules are distinct.
pub proof fn lemma_catalog_distinct()
    ensures
        forall|i: int, j: int|
            0 <= i < 10 && 0 <= j < 10 && i != j ==> (#[trigger] catalog_summaries()[i]).id
                != (#[trigger] catalog_summaries()[j]).id && catalog_summaries()[i].category
                != catalog_summaries()[j].category,
        forall|i: int| 0 <= i < 10 ==> (#[trigger] catalog_summaries()[i]).category.len() > 0,
{
        reveal_strlit("OWASP-A01-001");
        reveal_strlit("OWASP-A02-001");
        reveal_strlit("OWASP-A03-001");
        reveal_strlit("OWASP-A04-001");
        reveal_strlit("OWASP-A05-001");
        reveal_strlit("OWASP-A06-001");
        reveal_strlit("OWASP-A07-001");
        reveal_strlit("OWASP-A08-001");
        reveal_strlit("OWASP-A09-001");
        reveal_strlit("OWASP-A10-001");
        reveal_strlit("A01-BrokenAccessControl");
        reveal_strlit("A02-CryptoFailures");
        reveal_strlit("A03-Injection");
        reveal_strlit("A04-InsecureDesign");
        reveal_strlit("A05-SecurityMisconfiguration");
        reveal_strlit("A06-VulnerableComponents");
        reveal_strlit("A07-AuthenticationFailures");
        reveal_strlit("A08-IntegrityFailures");
        reveal_strlit("A09-LoggingFailures");
        reveal_strlit("A10-SSRF");
        let cs = catalog_summaries();
        assert forall|i: int, j: int|
            0 <= i < 10 && 0 <= j < 10 && i != j implies (#[trigger] cs[i]).id != (#[trigger] cs[j]).id
                && cs[i].category != cs[j].category by {
            assert(cs[i].id[7] != cs[j].id[7] || cs[i].id[8] != cs[j].id[8]);
            assert(cs[i].category[1] != cs[j].category[1] || cs[i].category[2] != cs[j].category[2]);
        }
        assert forall|i: int| 0 <= i < 10 implies (#[trigger] cs[i]).category.len() > 0 by {}
}

/// Whether the rules and the category index are those of the first `n`
/// catalog rules.
pub open spec fn loaded(rules: Seq<Rule>, es: Seq<(Seq<char>, Seq<Seq<char>>)>, n: int) -> bool {
    &&& rules.len() == n
    &&& forall|i: int| 0 <= i < n ==> rule_summary(#[trigger] rules[i]) == catalog_summaries()[i]
    &&& es == catalog_categories(n)
}

proof fn lemma_load_step(
    rules: Seq<Rule>,
    es: Seq<(Seq<char>, Seq<Seq<char>>)>,
    rules2: Seq<Rule>,
    es2: Seq<(Seq<char>, Seq<Seq<char>>)>,
    r: Rule,
    n: int,
)
    requires
        0 <= n < 10,
        loaded(rules, es, n),
        rule_summary(r) == catalog_summaries()[n],
        rules2 == with_rule(rules, r),
        es2 == file_under(es, filing_category(r), r.id@),
    ensures
        loaded(rules2, es2, n + 1),
{
    lemma_catalog_distinct();
    super::rules::lemma_rule_index(rules, r.id@);
    lemma_category_index(es, filing_category(r));
    assert forall|j: int| 0 <= j < rules.len() implies #[trigger] rules[j].id@ != r.id@ by {
        assert(rule_summary(rules[j]) == catalog_summaries()[j]);
    }
    assert(catalog_summaries()[n].category.len() > 0);
    assert(filing_category(r) == catalog_summaries()[n].category);
    assert forall|j: int| 0 <= j < es.len() implies #[trigger] es[j].0 != filing_category(r) by {
        assert(catalog_summaries().take(n)[j] == catalog_summaries()[j]);
        assert(es[j] == (catalog_summaries()[j].category, seq![catalog_summaries()[j].id]));
    }
    assert(catalog_summaries().take(n + 1) =~= catalog_summaries().take(n).push(catalog_summaries()[n]));
    assert(es2 =~= catalog_categories(n + 1));
}

impl OWASPRuleCatalog {
    /// Create the catalog of the OWASP Top 10 (2021) rules, A01 to A10.
    pub fn new() -> (c: Self)
        ensures
            loaded(c.rules@, category_entries(c.by_category@), 10),
            c.ids_distinct(),
    {
        let mut catalog = OWASPRuleCatalog { rules: Vec::new(), by_category: Vec::new() };
        assert(category_entries(catalog.by_category@) =~= catalog_categories(0));
        catalog.load_owasp_top_10_rules();
        proof {
            lemma_catalog_distinct();
            assert forall|i: int, j: int|
                0 <= i < catalog.rules@.len() && 0 <= j < catalog.rules@.len() && i != j implies catalog.rules@[i].id@
                    != catalog.rules@[j].id@ by {
                assert(rule_summary(catalog.rules@[i]) == catalog_summaries()[i]);
                assert(rule_summary(catalog.rules@[j]) == catalog_summaries()[j]);
            }
        }
        catalog
    }

    fn load_owasp_top_10_rules(&mut self)
        requires
            loaded(old(self).rules@, category_entries(old(self).by_category@), 0),
        ensures
            loaded(final(self).rules@, category_entries(final(self).by_category@), 10),
    {
        let ghost before = self.rules@;
        let ghost before_c = category_entries(self.by_category@);
        let r = create_broken_access_control_rules();
        self.add_rule(r);
        proof {
            lemma_load_step(before, before_c, self.rules@, category_entries(self.by_category@), r, 0);
        }
        let ghost before = self.rules@;
        let ghost before_c = category_entries(self.by_category@);
        let r = create_crypto_failures_rules();
        self.add_rule(r);
        proof {
            lemma_load_step(before, before_c, self.rules@, category_entries(self.by_category@), r, 1);
        }
        let ghost before = self.rules@;
        let ghost before_c = category_entries(self.by_category@);
        let r = create_injection_rules();
        self.add_rule(r);
        proof {
            lemma_load_step(before, before_c, self.rules@, category_entries(self.by_category@), r, 2);
        }
        let ghost before = self.rules@;
        let ghost before_c = category_entries(self.by_category@);
        let r = create_insecure_design_rules();
        self.add_rule(r);
        proof {
            lemma_load_step(before, before_c, self.rules@, category_entries(self.by_category@), r, 3);
        }
        let ghost before = self.rules@;
        let ghost before_c = category_entries(self.by_category@);
        let r = create_misconfiguration_rules();
        self.add_rule(r);
        proof {
            lemma_load_step(before, before_c, self.rules@, category_entries(self.by_category@), r, 4);
        }
        let ghost before = self.rules@;
        let ghost before_c = category_entries(self.by_category@);
        let r = create_vulnerable_components_rules();
        self.add_rule(r);
        proof {
            lemma_load_step(before, before_c, self.rules@, category_entries(self.by_category@), r, 5);
        }
        let ghost before = self.rules@;
        let ghost before_c = category_entries(self.by_category@);
        let r = create_auth_failures_rules();
        self.add_rule(r);
        proof {
            lemma_load_step(before, before_c, self.rules@, category_entries(self.by_category@), r, 6);
        }
        let ghost before = self.rules@;
        let ghost before_c = category_entries(self.by_category@);
        let r = create_integrity_failures_rules();
        self.add_rule(r);
        proof {
            lemma_load_step(before, before_c, self.rules@, category_entries(self.by_category@), r, 7);
        }
        let ghost before = self.rules@;
        let ghost before_c = category_entries(self.by_category@);
        let r = create_logging_failures_rules();
        self.add_rule(r);
        proof {
            lemma_load_step(before, before_c, self.rules@, category_entries(self.by_category@), r, 8);
        }
        let ghost before = self.rules@;
        let ghost before_c = category_entries(self.by_category@);
        let r = create_ssrf_rules();
        self.add_rule(r);
        proof {
            lemma_load_step(before, before_c, self.rules@, category_entries(self.by_category@), r, 9);
        }
    }
}

impl OWASPRuleCatalog {
    /// All rules of the catalog, as a rule set, in catalog order.
    pub fn get_all_rules(&self) -> (rs: RuleSet)
        ensures
            rule_views(rs.rules@) == rule_views(self.rules@),
            rs.source_dir is None,
    {
        let mut rule_set = RuleSet::new();
        for i in 0..self.rules.len()
            invariant
                rule_views(rule_set.rules@) == rule_views(self.rules@.take(i as int)),
                rule_set.source_dir is None,
        {
            let r = self.rules[i].clone();
            let ghost before = rule_set.rules@;
            rule_set.add_rule(r);
            assert(rule_views(rule_set.rules@) =~= rule_views(before).push(r@));
            assert(rule_views(self.rules@.take(i + 1)) =~= rule_views(self.rules@.take(i as int)).push(self.rules@[i as int]@));
        }
        assert(self.rules@.take(self.rules@.len() as int) =~= self.rules@);
        rule_set
    }

    /// The rule with the given identifier.
    pub fn rule(&self, id: &str) -> (r: Option<&Rule>)
        ensures
            match r {
                Some(rule) => super::rules::rule_index(self.rules@, id@) >= 0 && *rule
                    == self.rules@[super::rules::rule_index(self.rules@, id@)],
                None => super::rules::rule_index(self.rules@, id@) == -1,
            },
    {
        let target = String::from_str(id);
        match find_rule(&self.rules, &target) {
            Some(k) => {
                proof {
                    super::rules::lemma_rule_index(self.rules@, id@);
                }
                Some(&self.rules[k])
            },
            None => None,
        }
    }

    /// The rules filed under a category, in filing order.
    pub fn get_rules_by_category(&self, category: &str) -> (rs: RuleSet)
        ensures
            rs.source_dir is None,
            category_index(category_entries(self.by_category@), category@) < 0 ==> rs.rules@.len() == 0,
            category_index(category_entries(self.by_category@), category@) >= 0 ==> rule_views(rs.rules@)
                == rules_named(
                self.rules@,
                category_entries(self.by_category@)[category_index(category_entries(self.by_category@), category@)].1,
            ),
    {
        let mut rule_set = RuleSet::new();
        let target = String::from_str(category);
        let ghost es = category_entries(self.by_category@);
        proof {
            lemma_category_index(es, category@);
        }
        if let Some(j) = find_category(&self.by_category, &target) {
            let ids = &self.by_category[j].1;
            let ghost idv = texts(ids@);
            assert(idv == es[j as int].1);
            for i in 0..ids.len()
                invariant
                    idv == texts(ids@),
                    rule_views(rule_set.rules@) == rules_named(self.rules@, idv.take(i as int)),
                    rule_set.source_dir is None,
            {
                proof {
                    assert(idv.take(i + 1).drop_last() =~= idv.take(i as int));
                    assert(idv.take(i + 1).last() == ids@[i as int]@);
                }
                match find_rule(&self.rules, &ids[i]) {
                    Some(k) => {
                        proof {
                            super::rules::lemma_rule_index(self.rules@, ids@[i as int]@);
                        }
                        let r = self.rules[k].clone();
                        let ghost before = rule_set.rules@;
                        rule_set.add_rule(r);
                        assert(rule_views(rule_set.rules@) =~= rule_views(before).push(r@));
                    },
                    None => {},
                }
            }
            assert(idv.take(idv.len() as int) =~= idv);
        }
        rule_set
    }

    /// The rules with the given severity, in catalog order.
    pub fn get_rules_by_severity(&self, severity: &str) -> (rs: RuleSet)
        ensures
            rs.source_dir is None,
            rule_views(rs.rules@) == rule_views(
                self.rules@.filter(|r: Rule| rule_severity(r) == Some(severity@)),
            ),
    {
        let mut rule_set = RuleSet::new();
        let target = String::from_str(severity);
        let ghost pred = |r: Rule| rule_severity(r) == Some(severity@);
        for i in 0..self.rules.len()
            invariant
                target@ == severity@,
                pred == (|r: Rule| rule_severity(r) == Some(severity@)),
                rule_views(rule_set.rules@) == rule_views(self.rules@.take(i as int).filter(pred)),
                rule_set.source_dir is None,
        {
            proof {
                assert(self.rules@.take(i + 1) =~= self.rules@.take(i as int).push(self.rules@[i as int]));
                self.rules@.take(i as int).lemma_filter_push(self.rules@[i as int], pred);
            }
            let keep = match &self.rules[i].metadata {
                Some(m) => m.severity == target,
                None => false,
            };
            if keep {
                let r = self.rules[i].clone();
                let ghost before = rule_set.rules@;
                rule_set.add_rule(r);
                assert(rule_views(rule_set.rules@) =~= rule_views(before).push(r@));
                assert(rule_views(self.rules@.take(i + 1).filter(pred)) =~= rule_views(
                    self.rules@.take(i as int).filter(pred),
                ).push(self.rules@[i as int]@));
            }
        }
        assert(self.rules@.take(self.rules@.len() as int) =~= self.rules@);
        rule_set
    }

    /// Statistics: the number of rules, of categories, and the rule counts
    /// per severity in order of first appearance.
    pub fn get_stats(&self) -> (st: OWASPCatalogStats)
        ensures
            st.total_rules == self.rules@.len(),
            st.by_category == self.by_category@.len(),
            count_entries(st.by_severity@) == severity_counts(self.rules@),
    {
        let mut by_severity: Vec<(String, usize)> = Vec::new();
        for i in 0..self.rules.len()
            invariant
                count_entries(by_severity@) == severity_counts(self.rules@.take(i as int)),
                forall|k: int| 0 <= k < by_severity@.len() ==> #[trigger] by_severity@[k].1 <= i,
        {
            proof {
                assert(self.rules@.take(i + 1).drop_last() =~= self.rules@.take(i as int));
                assert(self.rules@.take(i + 1).last() == self.rules@[i as int]);
            }
            if let Some(m) = &self.rules[i].metadata {
                let ghost es = count_entries(by_severity@);
                proof {
                    lemma_severity_index(es, m.severity@);
                }
                let mut found: Option<usize> = None;
                let mut j: usize = 0;
                while j < by_severity.len() && found.is_none()
                    invariant
                        j <= by_severity@.len(),
                        es == count_entries(by_severity@),
                        found is None ==> forall|t: int| 0 <= t < j ==> #[trigger] es[t].0 != m.severity@,
                        found matches Some(x) ==> x < by_severity@.len() && es[x as int].0 == m.severity@
                            && forall|t: int| 0 <= t < x ==> #[trigger] es[t].0 != m.severity@,
                    decreases by_severity@.len() - j,
                {
                    if by_severity[j].0 == m.severity {
                        found = Some(j);
                    }
                    j = j + 1;
                }
                match found {
                    Some(j) => {
                        proof {
                            if severity_index(es, m.severity@) < j as int {
                                assert(es[severity_index(es, m.severity@)].0 == m.severity@);
                            }
                            if severity_index(es, m.severity@) > j as int || severity_index(es, m.severity@) == -1 {
                                assert(es[j as int].0 == m.severity@);
                            }
                            assert(severity_index(es, m.severity@) == j as int);
                            assert(by_severity@[j as int].1 <= i);
                        }
                        let count = by_severity[j].1 + 1;
                        let name = m.severity.clone();
                        by_severity.set(j, (name, count));
                        assert(count_entries(by_severity@) =~= es.update(j as int, (m.severity@, es[j as int].1 + 1)));
                    },
                    None => {
                        assert(severity_index(es, m.severity@) == -1);
                        by_severity.push((m.severity.clone(), 1));
                        assert(count_entries(by_severity@) =~= es.push((m.severity@, 1nat)));
                    },
                }
            }
        }
        assert(self.rules@.take(self.rules@.len() as int) =~= self.rules@);
        OWASPCatalogStats { total_rules: self.rules.len(), by_category: self.by_category.len(), by_severity }
    }
}

impl Default for OWASPRuleCatalog {
    fn default() -> (c: Self)
        ensures
            loaded(c.rules@, category_entries(c.by_category@), 10),
            c.ids_distinct(),
    {
        OWASPRuleCatalog::new()
    }
}

} // verus!
