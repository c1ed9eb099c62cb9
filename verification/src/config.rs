//! What the server is configured with.

use vstd::prelude::*;
use vstd::string::StringExecFns;

use crate::text::chars_of;

verus! {

/// The configuration of the server. It is made once, when the server
/// starts, and handed to whatever needs it.
#[derive(Debug)]
pub struct Config {
    pub database_url: String,
    pub port: u16,
    pub jwt_priv: String,
    pub gh_client_id: String,
    pub gh_client_secret: String,
    pub gh_user_agent: String,
    pub aws_s3_cred_file: String,
}

/// Where the database is and who connects to it.
#[derive(Debug)]
pub struct Database {
    pub user: String,
    pub password: String,
    pub host: String,
    pub port: String,
    pub name: String,
}

/// Options of the connection to the database that its address may carry.
#[derive(Debug)]
pub struct DbOptions {
    /// How long to wait for a connection, in seconds.
    pub timeout: u64,
    /// The time zone of the session; empty for that of the server.
    pub server_timezone: String,
}

/// The options of the command line.
#[derive(Debug)]
pub struct Opts {
    /// How often the flag for verbosity was given.
    pub verbose: u8,
}

/// How much is logged.
#[derive(Clone, Copy, PartialEq, Eq, Structural, Debug)]
pub enum LevelFilter {
    Warn,
    Info,
    Debug,
    Trace,
}

/// The address of a database.
pub open spec fn database_url(db: Database) -> Seq<char> {
    "postgres://"@ + db.user@ + ":"@ + db.password@ + "@"@ + db.host@ + ":"@ + db.port@ + "/"@
        + db.name@
}

/// The value of a decimal digit.
pub open spec fn digit_value(c: char) -> Option<nat> {
    if '0' <= c <= '9' {
        Some((c as u32 - 0x30) as nat)
    } else {
        None
    }
}

/// The number that a text of decimal digits stands for, if it is made of
/// decimal digits alone.
pub open spec fn decimal(s: Seq<char>) -> Option<nat>
    decreases s.len(),
{
    if s.len() == 0 {
        Some(0)
    } else {
        match (decimal(s.drop_last()), digit_value(s.last())) {
            (Some(n), Some(d)) => Some(10 * n + d),
            _ => None,
        }
    }
}

/// The port that a text stands for: decimal digits, at least one, after at
/// most one `+`, with a value of at most 65535.
pub open spec fn port_of(s: Seq<char>) -> Option<u16> {
    let digits = if s.len() > 0 && s[0] == '+' {
        s.drop_first()
    } else {
        s
    };
    if digits.len() == 0 {
        None
    } else {
        match decimal(digits) {
            Some(n) => if n <= u16::MAX {
                Some(n as u16)
            } else {
                None
            },
            None => None,
        }
    }
}

/// Digits that follow a number that is too large for a port leave it too
/// large.
proof fn lemma_decimal_grows(s: Seq<char>, n: int)
    requires
        0 <= n <= s.len(),
        decimal(s.take(n)) matches Some(v) && v > u16::MAX,
    ensures
        decimal(s) matches Some(v) ==> v > u16::MAX,
    decreases s.len() - n,
{
    if n < s.len() {
        assert(s.take(n + 1).drop_last() == s.take(n));
        assert(s.take(n + 1).last() == s[n]);
        if decimal(s.take(n + 1)) is Some {
            lemma_decimal_grows(s, n + 1);
        } else {
            lemma_decimal_fails(s, n + 1);
        }
    } else {
        assert(s.take(n) == s);
    }
}

/// A text with a prefix that is no number is no number.
proof fn lemma_decimal_fails(s: Seq<char>, n: int)
    requires
        0 <= n <= s.len(),
        decimal(s.take(n)) is None,
    ensures
        decimal(s) is None,
    decreases s.len() - n,
{
    if n < s.len() {
        assert(s.take(n + 1).drop_last() == s.take(n));
        lemma_decimal_fails(s, n + 1);
    } else {
        assert(s.take(n) == s);
    }
}

impl Database {
    /// The address of the database.
    pub fn url(&self) -> (url: String)
        ensures
            url@ == database_url(*self),
    {
        String::from_str("postgres://").concat(self.user.as_str()).concat(":").concat(
            self.password.as_str(),
        ).concat("@").concat(self.host.as_str()).concat(":").concat(self.port.as_str()).concat(
            "/",
        ).concat(self.name.as_str())
    }
}

/// The port that a text stands for.
pub fn parse_port(s: &str) -> (port: Option<u16>)
    ensures
        port == port_of(s@),
{
    let chars = chars_of(s);
    let start: usize = if chars.len() > 0 && chars[0] == '+' {
        1
    } else {
        0
    };
    if start == chars.len() {
        return None;
    }
    let ghost digits = chars@.subrange(start as int, chars@.len() as int);
    assert(digits == if s@.len() > 0 && s@[0] == '+' {
        s@.drop_first()
    } else {
        s@
    });
    let mut value: u32 = 0;
    let mut i: usize = start;
    assert(digits.take(0) == Seq::<char>::empty());
    while i < chars.len()
        invariant
            start <= i <= chars.len(),
            start < chars.len(),
            chars@ == s@,
            digits == chars@.subrange(start as int, chars@.len() as int),
            digits == if s@.len() > 0 && s@[0] == '+' {
                s@.drop_first()
            } else {
                s@
            },
            decimal(digits.take(i - start)) == Some(value as nat),
            value <= u16::MAX,
        decreases chars.len() - i,
    {
        let c = chars[i];
        proof {
            assert(digits.take(i - start + 1).drop_last() == digits.take(i - start));
            assert(digits.take(i - start + 1).last() == c);
        }
        if c < '0' || c > '9' {
            proof {
                lemma_decimal_fails(digits, i - start + 1);
            }
            return None;
        }
        let d: u32 = c as u32 - 0x30;
        let next: u32 = 10 * value + d;
        if next > 65535 {
            proof {
                lemma_decimal_grows(digits, i - start + 1);
            }
            return None;
        }
        value = next;
        i = i + 1;
    }
    assert(digits.take(i - start) == digits);
    Some(value as u16)
}

impl Config {
    /// The configuration with the given values, the address of the database
    /// made from its parts.
    pub fn new(
        database: &Database,
        port: u16,
        jwt_priv: String,
        gh_client_id: String,
        gh_client_secret: String,
        gh_user_agent: String,
        aws_s3_cred_file: String,
    ) -> (config: Config)
        ensures
            config.database_url@ == database_url(*database),
            config.port == port,
            config.jwt_priv == jwt_priv,
            config.gh_client_id == gh_client_id,
            config.gh_client_secret == gh_client_secret,
            config.gh_user_agent == gh_user_agent,
            config.aws_s3_cred_file == aws_s3_cred_file,
    {
        Config {
            database_url: database.url(),
            port,
            jwt_priv,
            gh_client_id,
            gh_client_secret,
            gh_user_agent,
            aws_s3_cred_file,
        }
    }
}

impl DbOptions {
    /// The statement that sets the time zone of a new session, if one is
    /// configured.
    pub fn time_zone_statement(&self) -> (statement: Option<String>)
        ensures
            match statement {
                None => self.server_timezone@.len() == 0,
                Some(text) => self.server_timezone@.len() > 0 && text@ == "SET TIME ZONE '"@
                    + self.server_timezone@ + "'"@,
            },
    {
        if self.server_timezone.as_str().is_empty() {
            None
        } else {
            Some(
                String::from_str("SET TIME ZONE '").concat(self.server_timezone.as_str()).concat(
                    "'",
                ),
            )
        }
    }
}

impl Opts {
    /// How much is logged: warnings, then with each flag for verbosity one
    /// level more, down to traces.
    pub fn level(&self) -> (level: LevelFilter)
        ensures
            level == match self.verbose {
                0 => LevelFilter::Warn,
                1 => LevelFilter::Info,
                2 => LevelFilter::Debug,
                _ => LevelFilter::Trace,
            },
    {
        match self.verbose {
            0 => LevelFilter::Warn,
            1 => LevelFilter::Info,
            2 => LevelFilter::Debug,
            _ => LevelFilter::Trace,
        }
    }

    /// How much of what the database driver says is logged: its debugging
    /// output from the second flag for verbosity on, warnings before.
    pub fn sqlx_level(&self) -> (level: LevelFilter)
        ensures
            level == if self.verbose > 1 {
                LevelFilter::Debug
            } else {
                LevelFilter::Warn
            },
    {
        if self.verbose > 1 {
            LevelFilter::Debug
        } else {
            LevelFilter::Warn
        }
    }
}

} // verus!
