//! Service configuration: the settings read at start-up, their defaults, and how their
//! text is read.

use vstd::prelude::*;
use crate::text::{chars_of, decimal_digits, digit_char, is_blank, is_blank_str, string_of, trim, trim_vec};

verus! {

/// The limits of the authentication layer.
#[derive(Debug, Clone)]
pub struct SecurityConfig {
    pub password_min_length: usize,
    pub session_timeout_minutes: u64,
    pub max_login_attempts: u32,
    pub lockout_duration_minutes: u64,
    pub max_request_body_bytes: u64,
}

impl Default for SecurityConfig {
    fn default() -> (r: SecurityConfig)
        ensures
            r.password_min_length == 8,
            r.session_timeout_minutes == 480,
            r.max_login_attempts == 5,
            r.lockout_duration_minutes == 30,
            r.max_request_body_bytes == 1_048_576,
    {
        SecurityConfig {
            password_min_length: 8,
            session_timeout_minutes: 480,
            max_login_attempts: 5,
            lockout_duration_minutes: 30,
            max_request_body_bytes: 1_048_576,
        }
    }
}

/// The outgoing mail settings.
#[derive(Debug, Clone)]
pub struct SmtpConfig {
    pub host: String,
    pub port: u16,
    pub username: String,
    pub password: String,
    pub from_email: String,
    pub from_name: String,
}

/// The settings of the service.
#[derive(Debug, Clone)]
pub struct AppConfig {
    pub database_url: String,
    pub redis_url: String,
    pub server_port: u16,
    pub jwt_secret: String,
    pub jwt_expiration_hours: u64,
    pub bootstrap_token: Option<String>,
    pub cors_allowed_origins: Vec<String>,
    pub upload_dir: String,
    pub export_dir: String,
    pub base_url: String,
    pub qr_base_url: String,
    pub public_port: u16,
    pub smtp: SmtpConfig,
    pub security: SecurityConfig,
}

/// Whether `c` is an ASCII decimal digit.
pub open spec fn is_decimal_digit(c: char) -> bool {
    '0' <= c && c <= '9'
}

/// The value of a string of decimal digits.
pub open spec fn digits_value(s: Seq<char>) -> nat
    decreases s.len(),
{
    if s.len() == 0 {
        0
    } else {
        digits_value(s.drop_last()) * 10 + ((s.last() as nat) - 48) as nat
    }
}

/// The text of an unsigned integer after its optional `+`.
pub open spec fn unsigned_body(s: Seq<char>) -> Seq<char> {
    if s.len() > 0 && s[0] == '+' {
        s.drop_first()
    } else {
        s
    }
}

/// The value an unsigned integer is read as from `s`, as `str::parse` reads it: an
/// optional `+`, then one or more decimal digits and nothing else.
pub open spec fn unsigned_value(s: Seq<char>) -> Option<nat> {
    let body = unsigned_body(s);
    if body.len() > 0 && forall|i: int| 0 <= i < body.len() ==> is_decimal_digit(#[trigger] body[i]) {
        Some(digits_value(body))
    } else {
        None
    }
}

/// The value `s` reads as when it fits below `max`.
pub open spec fn bounded_value(s: Seq<char>, max: nat) -> Option<nat> {
    match unsigned_value(s) {
        Some(v) => if v <= max {
            Some(v)
        } else {
            None
        },
        None => None,
    }
}

proof fn lemma_decimal_digits_value(n: nat)
    ensures
        digits_value(decimal_digits(n)) == n,
        decimal_digits(n).len() > 0,
        forall|i: int| 0 <= i < decimal_digits(n).len() ==> is_decimal_digit(#[trigger] decimal_digits(n)[i]),
    decreases n,
{
    let d = digit_char(n % 10);
    assert(d as nat == 48 + n % 10);
    if n < 10 {
        assert(decimal_digits(n).drop_last() =~= Seq::<char>::empty());
        assert(decimal_digits(n).last() == d);
        assert(digits_value(Seq::<char>::empty()) == 0);
    } else {
        lemma_decimal_digits_value(n / 10);
        let s = decimal_digits(n);
        assert(s.drop_last() =~= decimal_digits(n / 10));
        assert(s.last() == d);
        assert((n / 10) * 10 + n % 10 == n) by (nonlinear_arith);
        assert forall|i: int| 0 <= i < s.len() implies is_decimal_digit(#[trigger] s[i]) by {
            if i < s.len() - 1 {
                assert(s[i] == decimal_digits(n / 10)[i]);
            }
        }
    }
}

/// A number written in decimal reads back as that number, so the default of a numeric
/// setting, written and read again, is itself.
pub proof fn law_decimal_text_reads_back(n: nat, max: nat)
    requires
        n <= max,
    ensures
        unsigned_value(decimal_digits(n)) == Some(n),
        bounded_value(decimal_digits(n), max) == Some(n),
{
    lemma_decimal_digits_value(n);
    assert(decimal_digits(n)[0] != '+');
    assert(unsigned_body(decimal_digits(n)) == decimal_digits(n));
}

/// Reads an unsigned integer of at most `max` from `s`, as `str::parse` reads one of an
/// unsigned type whose largest value is `max`.
pub fn parse_unsigned(s: &str, max: u64) -> (r: Option<u64>)
    ensures
        match bounded_value(s@, max as nat) {
            Some(v) => r == Some(v as u64),
            None => r is None,
        },
{
    let v = chars_of(s);
    let start: usize = if v.len() > 0 && v[0] == '+' { 1 } else { 0 };
    let ghost body = unsigned_body(s@);
    assert(body =~= v@.skip(start as int));
    if start >= v.len() {
        return None;
    }
    let mut value: u64 = 0;
    let mut i: usize = start;
    let mut fits: bool = true;
    while i < v.len()
        invariant
            start <= i <= v.len(),
            v@ == s@,
            body == v@.skip(start as int),
            body == unsigned_body(s@),
            forall|j: int| start <= j < i ==> is_decimal_digit(#[trigger] v@[j]),
            fits ==> value as nat == digits_value(v@.subrange(start as int, i as int)) && value <= max,
            !fits ==> digits_value(v@.subrange(start as int, i as int)) > max,
        decreases v.len() - i,
    {
        let c = v[i];
        if c < '0' || c > '9' {
            assert(body[i - start] == c);
            assert(!is_decimal_digit(body[i - start]));
            assert(unsigned_value(s@) is None);
            return None;
        }
        let d: u64 = (c as u32 - 48) as u64;
        let ghost prefix = v@.subrange(start as int, i as int);
        let ghost next = v@.subrange(start as int, i + 1);
        assert(next.drop_last() =~= prefix);
        assert(next.last() == c);
        assert(digits_value(next) == digits_value(prefix) * 10 + d);
        if fits {
            if d > max || value > (max - d) / 10 {
                assert(value * 10 + d > max) by (nonlinear_arith)
                    requires
                        d > max || value > (max - d) / 10,
                ;
                fits = false;
            } else {
                assert(value * 10 + d <= max) by (nonlinear_arith)
                    requires
                        value <= (max - d) / 10,
                        d <= max,
                ;
                value = value * 10 + d;
            }
        } else {
            assert(digits_value(next) > max) by (nonlinear_arith)
                requires
                    digits_value(prefix) > max,
                    digits_value(next) == digits_value(prefix) * 10 + d,
            ;
        }
        i = i + 1;
    }
    assert(v@.subrange(start as int, v.len() as int) =~= body);
    assert forall|j: int| 0 <= j < body.len() implies is_decimal_digit(#[trigger] body[j]) by {
        assert(body[j] == v@[j + start]);
    }
    if fits {
        Some(value)
    } else {
        None
    }
}

/// `done` with `piece` added when it is not empty.
pub open spec fn push_nonempty(done: Seq<Seq<char>>, piece: Seq<char>) -> Seq<Seq<char>> {
    if piece.len() > 0 {
        done.push(piece)
    } else {
        done
    }
}

/// Reading `s` from the left: the trimmed, non-empty pieces before its last comma, and
/// the text after it.
pub open spec fn origin_scan(s: Seq<char>) -> (Seq<Seq<char>>, Seq<char>)
    decreases s.len(),
{
    if s.len() == 0 {
        (Seq::empty(), Seq::empty())
    } else {
        let (done, current) = origin_scan(s.drop_last());
        if s.last() == ',' {
            (push_nonempty(done, trim(current)), Seq::empty())
        } else {
            (done, current.push(s.last()))
        }
    }
}

/// The allowed origins a comma-separated list names: its pieces, trimmed, without the empty
/// ones, in order.
pub open spec fn origin_list(s: Seq<char>) -> Seq<Seq<char>> {
    push_nonempty(origin_scan(s).0, trim(origin_scan(s).1))
}

/// The allowed origins that a comma-separated setting names.
pub fn parse_cors_origins(raw: &str) -> (r: Vec<String>)
    ensures
        r.deep_view() == origin_list(raw@),
{
    let v = chars_of(raw);
    let mut done: Vec<String> = Vec::new();
    let mut current: Vec<char> = Vec::new();
    let mut i: usize = 0;
    assert(v@.take(0) =~= Seq::<char>::empty());
    while i < v.len()
        invariant
            i <= v.len(),
            v@ == raw@,
            done.deep_view() == origin_scan(v@.take(i as int)).0,
            current@ == origin_scan(v@.take(i as int)).1,
        decreases v.len() - i,
    {
        let c = v[i];
        assert(v@.take(i + 1).drop_last() =~= v@.take(i as int));
        assert(v@.take(i + 1).last() == c);
        if c == ',' {
            let piece = trim_vec(&current);
            if piece.len() > 0 {
                done.push(string_of(&piece));
            }
            current = Vec::new();
        } else {
            current.push(c);
        }
        i = i + 1;
        assert(done.deep_view() =~= origin_scan(v@.take(i as int)).0);
        assert(current@ =~= origin_scan(v@.take(i as int)).1);
    }
    assert(v@.take(v.len() as int) =~= v@);
    let piece = trim_vec(&current);
    if piece.len() > 0 {
        done.push(string_of(&piece));
    }
    assert(done.deep_view() =~= origin_list(raw@));
    done
}

/// The bootstrap token of the service: the one set, unless it is blank.
pub fn bootstrap_token(raw: Option<String>) -> (r: Option<String>)
    ensures
        match raw {
            Some(t) => if is_blank(t@) {
                r is None
            } else {
                r == Some(t)
            },
            None => r is None,
        },
{
    match raw {
        Some(t) => {
            if is_blank_str(t.as_str()) {
                None
            } else {
                Some(t)
            }
        },
        None => None,
    }
}

proof fn lemma_origin_scan_shape(s: Seq<char>)
    ensures
        forall|k: int| 0 <= k < origin_scan(s).0.len() ==> (#[trigger] origin_scan(s).0[k]).len() > 0
            && !origin_scan(s).0[k].contains(',') && trim(origin_scan(s).0[k]) == origin_scan(s).0[k],
        !origin_scan(s).1.contains(','),
    decreases s.len(),
{
    if s.len() > 0 {
        lemma_origin_scan_shape(s.drop_last());
        let (done, current) = origin_scan(s.drop_last());
        if s.last() == ',' {
            lemma_piece_shape(current);
        } else {
            assert forall|j: int| 0 <= j < current.push(s.last()).len() implies current.push(s.last())[j] != ',' by {
                if j < current.len() {
                    assert(current.push(s.last())[j] == current[j]);
                }
            }
        }
    }
}

proof fn lemma_piece_shape(piece: Seq<char>)
    requires
        !piece.contains(','),
    ensures
        !trim(piece).contains(','),
        trim(trim(piece)) == trim(piece),
{
    crate::text::lemma_trim_shape(piece);
    if trim(piece).contains(',') {
        let k = choose|k: int| 0 <= k < trim(piece).len() && trim(piece)[k] == ',';
        let j = choose|j: int| 0 <= j < piece.len() && trim(piece)[k] == piece[j];
        assert(piece[j] == ',');
    }
}

/// Every allowed origin is a non-empty piece of the setting between commas, with no blank
/// around it.
pub proof fn law_origins_are_trimmed_pieces(raw: Seq<char>)
    ensures
        forall|k: int|
            0 <= k < origin_list(raw).len() ==> (#[trigger] origin_list(raw)[k]).len() > 0
                && !origin_list(raw)[k].contains(',') && trim(origin_list(raw)[k]) == origin_list(
                raw,
            )[k],
{
    lemma_origin_scan_shape(raw);
    lemma_piece_shape(origin_scan(raw).1);
}


/// The settings as the environment gives them: each one's text, when it is set.
#[derive(Debug, Clone)]
pub struct ConfigSettings {
    /// `DATABASE_URL`.
    pub database_url: Option<String>,
    /// `REDIS_URL`.
    pub redis_url: Option<String>,
    /// `SERVER_PORT`.
    pub server_port: Option<String>,
    /// `JWT_SECRET`.
    pub jwt_secret: Option<String>,
    /// `JWT_EXPIRATION_HOURS`.
    pub jwt_expiration_hours: Option<String>,
    /// `BOOTSTRAP_TOKEN`.
    pub bootstrap_token: Option<String>,
    /// `CORS_ALLOWED_ORIGINS`.
    pub cors_allowed_origins: Option<String>,
    /// `UPLOAD_DIR`.
    pub upload_dir: Option<String>,
    /// `EXPORT_DIR`.
    pub export_dir: Option<String>,
    /// `BASE_URL`.
    pub base_url: Option<String>,
    /// `QR_BASE_URL`.
    pub qr_base_url: Option<String>,
    /// `PUBLIC_PORT`.
    pub public_port: Option<String>,
    /// `SMTP_HOST`.
    pub smtp_host: Option<String>,
    /// `SMTP_PORT`.
    pub smtp_port: Option<String>,
    /// `SMTP_USERNAME`.
    pub smtp_username: Option<String>,
    /// `SMTP_PASSWORD`.
    pub smtp_password: Option<String>,
    /// `SMTP_FROM_EMAIL`.
    pub smtp_from_email: Option<String>,
    /// `SMTP_FROM_NAME`.
    pub smtp_from_name: Option<String>,
    /// `PASSWORD_MIN_LENGTH`.
    pub password_min_length: Option<String>,
    /// `SESSION_TIMEOUT_MINUTES`.
    pub session_timeout_minutes: Option<String>,
    /// `MAX_LOGIN_ATTEMPTS`.
    pub max_login_attempts: Option<String>,
    /// `LOCKOUT_DURATION_MINUTES`.
    pub lockout_duration_minutes: Option<String>,
    /// `MAX_REQUEST_BODY_BYTES`.
    pub max_request_body_bytes: Option<String>,
}

/// A setting that stops the service from starting.
#[derive(Debug, Clone, Copy)]
pub enum ConfigError {
    /// A required setting is not set; its name.
    Missing(&'static str),
    /// A numeric setting does not read as a number of its type; its name.
    Invalid(&'static str),
}

/// What a numeric setting reads as: its default when it is not set, else its text read as
/// an unsigned number of at most `max`.
pub open spec fn number_setting(raw: Option<String>, default: nat, max: nat) -> Option<nat> {
    match raw {
        None => Some(default),
        Some(text) => bounded_value(text@, max),
    }
}

/// The text a setting gives: the one set, else `default`.
pub open spec fn text_setting(raw: Option<String>, default: Seq<char>) -> Seq<char> {
    match raw {
        Some(text) => text@,
        None => default,
    }
}

/// The setting that stops the service from starting, if one does, as (whether it is
/// missing rather than unreadable, its name): the first in the order the settings are read.
pub open spec fn config_error(s: ConfigSettings) -> Option<(bool, Seq<char>)> {
    if s.database_url is None {
        Some((true, "DATABASE_URL"@))
    } else if number_setting(s.server_port, 3030, u16::MAX as nat) is None {
        Some((false, "SERVER_PORT"@))
    } else if s.jwt_secret is None {
        Some((true, "JWT_SECRET"@))
    } else if number_setting(s.jwt_expiration_hours, 24, u64::MAX as nat) is None {
        Some((false, "JWT_EXPIRATION_HOURS"@))
    } else if number_setting(s.public_port, 3030, u16::MAX as nat) is None {
        Some((false, "PUBLIC_PORT"@))
    } else if number_setting(s.smtp_port, 587, u16::MAX as nat) is None {
        Some((false, "SMTP_PORT"@))
    } else if number_setting(s.password_min_length, 8, usize::MAX as nat) is None {
        Some((false, "PASSWORD_MIN_LENGTH"@))
    } else if number_setting(s.session_timeout_minutes, 480, u64::MAX as nat) is None {
        Some((false, "SESSION_TIMEOUT_MINUTES"@))
    } else if number_setting(s.max_login_attempts, 5, u32::MAX as nat) is None {
        Some((false, "MAX_LOGIN_ATTEMPTS"@))
    } else if number_setting(s.lockout_duration_minutes, 30, u64::MAX as nat) is None {
        Some((false, "LOCKOUT_DURATION_MINUTES"@))
    } else if number_setting(s.max_request_body_bytes, 1048576, u64::MAX as nat) is None {
        Some((false, "MAX_REQUEST_BODY_BYTES"@))
    } else {
        None
    }
}

/// Reads a numeric setting: its default when it is not set, else its text read as an
/// unsigned number of at most `max`.
fn read_number(raw: &Option<String>, default: u64, max: u64) -> (r: Option<u64>)
    requires
        default <= max,
    ensures
        match number_setting(*raw, default as nat, max as nat) {
            Some(v) => r == Some(v as u64),
            None => r is None,
        },
{
    match raw {
        None => Some(default),
        Some(text) => parse_unsigned(text.as_str(), max),
    }
}

/// The text a setting gives: the one set, else `default`.
fn read_text(raw: &Option<String>, default: &str) -> (r: String)
    ensures
        r@ == text_setting(*raw, default@),
{
    match raw {
        Some(text) => text.clone(),
        None => String::from_str(default),
    }
}

impl AppConfig {
    /// The configuration the settings give, or the first setting that stops the service
    /// from starting.
    pub fn from_settings(s: &ConfigSettings) -> (r: Result<AppConfig, ConfigError>)
        ensures
            match config_error(*s) {
                Some((missing, name)) => r matches Err(e) && match e {
                    ConfigError::Missing(n) => missing && n@ == name,
                    ConfigError::Invalid(n) => !missing && n@ == name,
                },
                None => r matches Ok(c) && {
                    &&& s.database_url matches Some(d) && c.database_url@ == d@
                    &&& s.jwt_secret matches Some(j) && c.jwt_secret@ == j@
                    &&& c.redis_url@ == text_setting(s.redis_url, "redis://localhost:6379"@)
                    &&& c.upload_dir@ == text_setting(s.upload_dir, "./uploads"@)
                    &&& c.export_dir@ == text_setting(s.export_dir, "./exports"@)
                    &&& c.base_url@ == text_setting(s.base_url, "http://localhost:3030"@)
                    &&& c.qr_base_url@ == text_setting(s.qr_base_url, "http://localhost:3030"@)
                    &&& c.smtp.host@ == text_setting(s.smtp_host, "localhost"@)
                    &&& c.smtp.username@ == text_setting(s.smtp_username, ""@)
                    &&& c.smtp.password@ == text_setting(s.smtp_password, ""@)
                    &&& c.smtp.from_email@ == text_setting(s.smtp_from_email, "noreply@code-terroir.com"@)
                    &&& c.smtp.from_name@ == text_setting(s.smtp_from_name, "Code Terroir"@)
                    &&& number_setting(s.server_port, 3030, u16::MAX as nat) == Some(c.server_port as nat)
                    &&& number_setting(s.jwt_expiration_hours, 24, u64::MAX as nat) == Some(c.jwt_expiration_hours as nat)
                    &&& number_setting(s.public_port, 3030, u16::MAX as nat) == Some(c.public_port as nat)
                    &&& number_setting(s.smtp_port, 587, u16::MAX as nat) == Some(c.smtp.port as nat)
                    &&& number_setting(s.password_min_length, 8, usize::MAX as nat) == Some(c.security.password_min_length as nat)
                    &&& number_setting(s.session_timeout_minutes, 480, u64::MAX as nat) == Some(c.security.session_timeout_minutes as nat)
                    &&& number_setting(s.max_login_attempts, 5, u32::MAX as nat) == Some(c.security.max_login_attempts as nat)
                    &&& number_setting(s.lockout_duration_minutes, 30, u64::MAX as nat) == Some(c.security.lockout_duration_minutes as nat)
                    &&& number_setting(s.max_request_body_bytes, 1048576, u64::MAX as nat) == Some(c.security.max_request_body_bytes as nat)
                    &&& c.cors_allowed_origins.deep_view() == origin_list(
                        text_setting(s.cors_allowed_origins, "http://localhost:8081"@),
                    )
                    &&& match s.bootstrap_token {
                        Some(t) => if is_blank(t@) {
                            c.bootstrap_token is None
                        } else {
                            c.bootstrap_token == Some(t)
                        },
                        None => c.bootstrap_token is None,
                    }
                },
            },
    {
        let database_url = match &s.database_url {
            Some(d) => d.clone(),
            None => {
                return Err(ConfigError::Missing("DATABASE_URL"));
            },
        };
        let redis_url = read_text(&s.redis_url, "redis://localhost:6379");
        let server_port: u16 = match read_number(&s.server_port, 3030, u16::MAX as u64) {
            Some(v) => v as u16,
            None => {
                return Err(ConfigError::Invalid("SERVER_PORT"));
            },
        };
        let jwt_secret = match &s.jwt_secret {
            Some(j) => j.clone(),
            None => {
                return Err(ConfigError::Missing("JWT_SECRET"));
            },
        };
        let jwt_expiration_hours: u64 = match read_number(&s.jwt_expiration_hours, 24, u64::MAX) {
            Some(v) => v as u64,
            None => {
                return Err(ConfigError::Invalid("JWT_EXPIRATION_HOURS"));
            },
        };
        let public_port: u16 = match read_number(&s.public_port, 3030, u16::MAX as u64) {
            Some(v) => v as u16,
            None => {
                return Err(ConfigError::Invalid("PUBLIC_PORT"));
            },
        };
        let smtp_port: u16 = match read_number(&s.smtp_port, 587, u16::MAX as u64) {
            Some(v) => v as u16,
            None => {
                return Err(ConfigError::Invalid("SMTP_PORT"));
            },
        };
        let security_password_min_length: usize = match read_number(&s.password_min_length, 8, usize::MAX as u64) {
            Some(v) => v as usize,
            None => {
                return Err(ConfigError::Invalid("PASSWORD_MIN_LENGTH"));
            },
        };
        let security_session_timeout_minutes: u64 = match read_number(&s.session_timeout_minutes, 480, u64::MAX) {
            Some(v) => v as u64,
            None => {
                return Err(ConfigError::Invalid("SESSION_TIMEOUT_MINUTES"));
            },
        };
        let security_max_login_attempts: u32 = match read_number(&s.max_login_attempts, 5, u32::MAX as u64) {
            Some(v) => v as u32,
            None => {
                return Err(ConfigError::Invalid("MAX_LOGIN_ATTEMPTS"));
            },
        };
        let security_lockout_duration_minutes: u64 = match read_number(&s.lockout_duration_minutes, 30, u64::MAX) {
            Some(v) => v as u64,
            None => {
                return Err(ConfigError::Invalid("LOCKOUT_DURATION_MINUTES"));
            },
        };
        let security_max_request_body_bytes: u64 = match read_number(&s.max_request_body_bytes, 1048576, u64::MAX) {
            Some(v) => v as u64,
            None => {
                return Err(ConfigError::Invalid("MAX_REQUEST_BODY_BYTES"));
            },
        };
        let bootstrap = bootstrap_token(s.bootstrap_token.clone());
        let origins_text = read_text(&s.cors_allowed_origins, "http://localhost:8081");
        let cors_allowed_origins = parse_cors_origins(origins_text.as_str());
        proof {
            reveal_strlit("redis://localhost:6379");
            reveal_strlit("./uploads");
            reveal_strlit("./exports");
            reveal_strlit("http://localhost:3030");
            reveal_strlit("http://localhost:3030");
            reveal_strlit("localhost");
            reveal_strlit("");
            reveal_strlit("");
            reveal_strlit("noreply@code-terroir.com");
            reveal_strlit("Code Terroir");
            reveal_strlit("http://localhost:8081");
        }
        Ok(AppConfig {
            database_url,
            redis_url,
            server_port,
            jwt_secret,
            jwt_expiration_hours,
            bootstrap_token: bootstrap,
            cors_allowed_origins,
            upload_dir: read_text(&s.upload_dir, "./uploads"),
            export_dir: read_text(&s.export_dir, "./exports"),
            base_url: read_text(&s.base_url, "http://localhost:3030"),
            qr_base_url: read_text(&s.qr_base_url, "http://localhost:3030"),
            public_port,
            smtp: SmtpConfig {
                host: read_text(&s.smtp_host, "localhost"),
                port: smtp_port,
                username: read_text(&s.smtp_username, ""),
                password: read_text(&s.smtp_password, ""),
                from_email: read_text(&s.smtp_from_email, "noreply@code-terroir.com"),
                from_name: read_text(&s.smtp_from_name, "Code Terroir"),
            },
            security: SecurityConfig {
                password_min_length: security_password_min_length,
                session_timeout_minutes: security_session_timeout_minutes,
                max_login_attempts: security_max_login_attempts,
                lockout_duration_minutes: security_lockout_duration_minutes,
                max_request_body_bytes: security_max_request_body_bytes,
            },
        })
    }
}

} // verus!
