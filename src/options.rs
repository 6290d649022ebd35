//! Connection options: the native connection string and fetch settings.

use vstd::prelude::*;
use crate::error::OdbcError;
use crate::text::same_text;

verus! {

/// How rows are fetched.
#[derive(Debug, Clone, Copy)]
pub struct OdbcBufferSettings {
    /// Rows fetched at once in batch mode.
    pub batch_size: usize,
    /// Largest text or binary cell buffered; `None` for unbuffered reads.
    pub max_column_size: Option<usize>,
}

impl Default for OdbcBufferSettings {
    fn default() -> (r: Self)
        ensures
            r.batch_size == 128,
            r.max_column_size == Some(4096usize),
    {
        OdbcBufferSettings { batch_size: 128, max_column_size: Some(4096) }
    }
}

/// Options for connecting to a data source.
#[derive(Debug, Clone)]
pub struct OdbcConnectOptions {
    /// The native connection string: `Key=Value` pairs separated by `;`.
    pub connection_string: String,
    pub buffer_settings: OdbcBufferSettings,
    /// How long a connection attempt may take, in whole seconds; enforced
    /// by the caller.
    pub connect_timeout: Option<u64>,
}

/// `s` followed by `pair`, with a `;` between them unless `s` is empty.
pub open spec fn with_pair(s: Seq<char>, pair: Seq<char>) -> Seq<char> {
    if s.len() == 0 {
        pair
    } else {
        s + ";"@ + pair
    }
}

pub open spec fn has_prefix(s: Seq<char>, p: Seq<char>) -> bool {
    p.len() <= s.len() && s.subrange(0, p.len() as int) == p
}

/// A connection string with an `odbc://` or `odbc:` scheme removed.
pub open spec fn without_scheme(s: Seq<char>) -> Seq<char> {
    if has_prefix(s, "odbc://"@) {
        s.subrange(7, s.len() as int)
    } else if has_prefix(s, "odbc:"@) {
        s.subrange(5, s.len() as int)
    } else {
        s
    }
}

/// Whether `s` starts with `p`.
fn starts_with(s: &str, p: &str) -> (r: bool)
    ensures
        r == has_prefix(s@, p@),
{
    let n = p.unicode_len();
    if n > s.unicode_len() {
        return false;
    }
    same_text(s.substring_char(0, n), p)
}

/// Appends `key` and `value` to a connection string, separated from what is
/// there by `;` unless the string is empty.
fn push_pair(conn: &mut String, key: &str, value: &str)
    ensures
        final(conn)@ == with_pair(old(conn)@, key@ + value@),
{
    if conn.as_str().unicode_len() != 0 {
        conn.append(";");
    }
    conn.append(key);
    conn.append(value);
    proof {
        assert(final(conn)@ =~= with_pair(old(conn)@, key@ + value@));
    }
}

/// The connection string a URL-style or raw string stands for: an `odbc://`
/// or `odbc:` prefix is removed, anything else is kept as it is.
pub fn normalize_connection_string(url: &str) -> (r: String)
    ensures
        r@ == without_scheme(url@),
{
    proof {
        reveal_strlit("odbc://");
        reveal_strlit("odbc:");
    }
    if starts_with(url, "odbc://") {
        String::from_str(url.substring_char(7, url.unicode_len()))
    } else if starts_with(url, "odbc:") {
        String::from_str(url.substring_char(5, url.unicode_len()))
    } else {
        String::from_str(url)
    }
}

impl Default for OdbcConnectOptions {
    fn default() -> (r: Self)
        ensures
            r.connection_string@.len() == 0,
            r.buffer_settings.batch_size == 128,
            r.buffer_settings.max_column_size == Some(4096usize),
            r.connect_timeout == Some(30u64),
    {
        OdbcConnectOptions {
            connection_string: String::new(),
            buffer_settings: OdbcBufferSettings::default(),
            connect_timeout: Some(30),
        }
    }
}

impl OdbcConnectOptions {
    /// Options for the given connection string, with default settings.
    pub fn new(connection_string: &str) -> (r: Self)
        ensures
            r.connection_string@ == connection_string@,
            r.buffer_settings.batch_size == 128,
            r.buffer_settings.max_column_size == Some(4096usize),
            r.connect_timeout == Some(30u64),
    {
        let mut o = OdbcConnectOptions::default();
        o.connection_string = String::from_str(connection_string);
        o
    }

    /// Options for a named data source: `DSN=<dsn>`.
    pub fn from_dsn(dsn: &str) -> (r: Self)
        ensures
            r.connection_string@ == "DSN="@ + dsn@,
            r.buffer_settings.batch_size == 128,
            r.buffer_settings.max_column_size == Some(4096usize),
            r.connect_timeout == Some(30u64),
    {
        let mut s = String::from_str("DSN=");
        s.append(dsn);
        OdbcConnectOptions::new(s.as_str())
    }

    /// Parses a connection string, raw or prefixed by `odbc://` or `odbc:`.
    pub fn parse(s: &str) -> (r: Self)
        ensures
            r.connection_string@ == without_scheme(s@),
            r.buffer_settings.batch_size == 128,
            r.buffer_settings.max_column_size == Some(4096usize),
            r.connect_timeout == Some(30u64),
    {
        let conn = normalize_connection_string(s);
        OdbcConnectOptions::new(conn.as_str())
    }

    /// Replaces the connection string.
    pub fn connection_string(self, connection_string: &str) -> (r: Self)
        ensures
            r.connection_string@ == connection_string@,
            r.buffer_settings == self.buffer_settings,
            r.connect_timeout == self.connect_timeout,
    {
        let mut o = self;
        o.connection_string = String::from_str(connection_string);
        o
    }

    pub fn get_connection_string(&self) -> (r: &str)
        ensures
            r@ == self.connection_string@,
    {
        self.connection_string.as_str()
    }

    pub fn buffer_settings(self, settings: OdbcBufferSettings) -> (r: Self)
        ensures
            r.connection_string == self.connection_string,
            r.buffer_settings == settings,
            r.connect_timeout == self.connect_timeout,
    {
        let mut o = self;
        o.buffer_settings = settings;
        o
    }

    pub fn batch_size(self, size: usize) -> (r: Self)
        ensures
            r.connection_string == self.connection_string,
            r.buffer_settings.batch_size == size,
            r.buffer_settings.max_column_size == self.buffer_settings.max_column_size,
            r.connect_timeout == self.connect_timeout,
    {
        let mut o = self;
        o.buffer_settings.batch_size = size;
        o
    }

    /// Sets the largest buffered cell; `None` for unbuffered reads.
    pub fn max_column_size(self, size: Option<usize>) -> (r: Self)
        ensures
            r.connection_string == self.connection_string,
            r.buffer_settings.batch_size == self.buffer_settings.batch_size,
            r.buffer_settings.max_column_size == size,
            r.connect_timeout == self.connect_timeout,
    {
        let mut o = self;
        o.buffer_settings.max_column_size = size;
        o
    }

    /// Sets the connection timeout, in whole seconds.
    pub fn connect_timeout(self, seconds: u64) -> (r: Self)
        ensures
            r.connection_string == self.connection_string,
            r.buffer_settings == self.buffer_settings,
            r.connect_timeout == Some(seconds),
    {
        let mut o = self;
        o.connect_timeout = Some(seconds);
        o
    }

    /// Adds `UID=<username>`.
    pub fn username(self, username: &str) -> (r: Self)
        ensures
            r.connection_string@ == with_pair(self.connection_string@, "UID="@ + username@),
            r.buffer_settings == self.buffer_settings,
            r.connect_timeout == self.connect_timeout,
    {
        let mut o = self;
        push_pair(&mut o.connection_string, "UID=", username);
        o
    }

    /// Adds `PWD=<password>`.
    pub fn password(self, password: &str) -> (r: Self)
        ensures
            r.connection_string@ == with_pair(self.connection_string@, "PWD="@ + password@),
            r.buffer_settings == self.buffer_settings,
            r.connect_timeout == self.connect_timeout,
    {
        let mut o = self;
        push_pair(&mut o.connection_string, "PWD=", password);
        o
    }

    /// Adds `Driver={<driver>}`.
    pub fn driver(self, driver: &str) -> (r: Self)
        ensures
            r.connection_string@ == with_pair(
                self.connection_string@,
                "Driver={"@ + driver@ + "}"@,
            ),
            r.buffer_settings == self.buffer_settings,
            r.connect_timeout == self.connect_timeout,
    {
        let mut o = self;
        push_pair(&mut o.connection_string, "Driver={", driver);
        o.connection_string.append("}");
        proof {
            let before = self.connection_string@;
            if before.len() == 0 {
                assert(o.connection_string@ =~= "Driver={"@ + driver@ + "}"@);
            } else {
                assert(o.connection_string@ =~= before + ";"@ + ("Driver={"@ + driver@ + "}"@));
            }
        }
        o
    }

    /// Adds `Server=<server>`.
    pub fn server(self, server: &str) -> (r: Self)
        ensures
            r.connection_string@ == with_pair(self.connection_string@, "Server="@ + server@),
            r.buffer_settings == self.buffer_settings,
            r.connect_timeout == self.connect_timeout,
    {
        let mut o = self;
        push_pair(&mut o.connection_string, "Server=", server);
        o
    }

    /// Adds `Database=<database>`.
    pub fn database(self, database: &str) -> (r: Self)
        ensures
            r.connection_string@ == with_pair(self.connection_string@, "Database="@ + database@),
            r.buffer_settings == self.buffer_settings,
            r.connect_timeout == self.connect_timeout,
    {
        let mut o = self;
        push_pair(&mut o.connection_string, "Database=", database);
        o
    }
}

/// The parts of an `odbc://` URL that the connection string is built from.
#[derive(Debug, Clone)]
pub struct UrlParts {
    pub host: Option<String>,
    pub path: String,
    pub username: String,
    pub password: Option<String>,
    /// Query parameters, decoded, in order.
    pub query: Vec<(String, String)>,
}

/// `s` without its leading slashes.
pub open spec fn trim_leading_slashes(s: Seq<char>) -> Seq<char>
    decreases s.len(),
{
    if s.len() > 0 && s[0] == '/' {
        trim_leading_slashes(s.drop_first())
    } else {
        s
    }
}

pub open spec fn host_part(host: Option<Seq<char>>) -> Seq<char> {
    match host {
        Some(h) => if h.len() > 0 && h[0] == '{' {
            "Driver="@ + h
        } else {
            "DSN="@ + h
        },
        None => Seq::empty(),
    }
}

pub open spec fn database_part(path: Seq<char>) -> Seq<char> {
    if trim_leading_slashes(path).len() > 0 {
        ";Database="@ + trim_leading_slashes(path)
    } else {
        Seq::empty()
    }
}

pub open spec fn user_part(user: Seq<char>) -> Seq<char> {
    if user.len() > 0 {
        ";UID="@ + user
    } else {
        Seq::empty()
    }
}

pub open spec fn password_part(password: Option<Seq<char>>) -> Seq<char> {
    match password {
        Some(p) => ";PWD="@ + p,
        None => Seq::empty(),
    }
}

/// Each query parameter as `;key=value`, in order.
pub open spec fn query_part(pairs: Seq<(Seq<char>, Seq<char>)>) -> Seq<char>
    decreases pairs.len(),
{
    if pairs.len() == 0 {
        Seq::empty()
    } else {
        query_part(pairs.drop_last()) + ";"@ + pairs.last().0 + "="@ + pairs.last().1
    }
}

pub open spec fn opt_view(s: Option<String>) -> Option<Seq<char>> {
    match s {
        Some(x) => Some(x@),
        None => None,
    }
}

pub open spec fn pairs_view(q: Seq<(String, String)>) -> Seq<(Seq<char>, Seq<char>)> {
    q.map_values(|p: (String, String)| (p.0@, p.1@))
}

/// The connection string a URL maps to: the host gives `DSN=<host>`, or
/// `Driver=<host>` when it starts with `{`; the path gives the database; the
/// user information gives `UID` and `PWD`; the query parameters follow as
/// they are.
pub open spec fn url_connection_string(u: UrlParts) -> Seq<char> {
    host_part(opt_view(u.host)) + database_part(u.path@) + user_part(u.username@)
        + password_part(opt_view(u.password)) + query_part(pairs_view(u.query@))
}

/// The position of the first character of `s` that is not a slash.
fn skip_slashes(s: &str) -> (r: usize)
    ensures
        r <= s@.len(),
        trim_leading_slashes(s@) == s@.subrange(r as int, s@.len() as int),
{
    let n = s.unicode_len();
    let mut i: usize = 0;
    assert(s@.subrange(0, n as int) =~= s@);
    while i < n && s.get_char(i) == '/'
        invariant
            i <= n,
            n == s@.len(),
            trim_leading_slashes(s@) == trim_leading_slashes(s@.subrange(i as int, n as int)),
        decreases n - i,
    {
        proof {
            let rest = s@.subrange(i as int, n as int);
            assert(rest.drop_first() =~= s@.subrange(i + 1, n as int));
        }
        i = i + 1;
    }
    proof {
        let rest = s@.subrange(i as int, n as int);
        assert(!(rest.len() > 0 && rest[0] == '/'));
    }
    i
}

impl OdbcConnectOptions {
    /// Options whose connection string is the one the URL maps to.
    pub fn from_url(url: &UrlParts) -> (r: Self)
        ensures
            r.connection_string@ == url_connection_string(*url),
            r.buffer_settings.batch_size == 128,
            r.buffer_settings.max_column_size == Some(4096usize),
            r.connect_timeout == Some(30u64),
    {
        let mut conn = String::new();
        match &url.host {
            Some(host) => {
                let h = host.as_str();
                if h.unicode_len() > 0 && h.get_char(0) == '{' {
                    conn.append("Driver=");
                } else {
                    conn.append("DSN=");
                }
                conn.append(h);
            },
            None => {},
        }
        let ghost after_host = conn@;
        assert(after_host == host_part(opt_view(url.host)));
        let path = url.path.as_str();
        let start = skip_slashes(path);
        let db = path.substring_char(start, path.unicode_len());
        if db.unicode_len() > 0 {
            conn.append(";Database=");
            conn.append(db);
        }
        let ghost after_db = conn@;
        assert(after_db =~= after_host + database_part(url.path@));
        if url.username.as_str().unicode_len() > 0 {
            conn.append(";UID=");
            conn.append(url.username.as_str());
        }
        let ghost after_user = conn@;
        assert(after_user =~= after_db + user_part(url.username@));
        match &url.password {
            Some(p) => {
                conn.append(";PWD=");
                conn.append(p.as_str());
            },
            None => {},
        }
        let ghost before_query = conn@;
        assert(before_query =~= after_user + password_part(opt_view(url.password)));
        let mut i: usize = 0;
        while i < url.query.len()
            invariant
                i <= url.query@.len(),
                conn@ == before_query + query_part(pairs_view(url.query@.subrange(0, i as int))),
            decreases url.query@.len() - i,
        {
            let pair = &url.query[i];
            conn.append(";");
            conn.append(pair.0.as_str());
            conn.append("=");
            conn.append(pair.1.as_str());
            proof {
                let pv = pairs_view(url.query@.subrange(0, i + 1));
                assert(pv.drop_last() =~= pairs_view(url.query@.subrange(0, i as int)));
                assert(pv.last() == (url.query@[i as int].0@, url.query@[i as int].1@));
                assert(conn@ =~= before_query + query_part(pv));
            }
            i = i + 1;
        }
        assert(url.query@.subrange(0, i as int) =~= url.query@);
        assert(conn@ =~= url_connection_string(*url));
        OdbcConnectOptions::new(conn.as_str())
    }
}

impl std::str::FromStr for OdbcConnectOptions {
    type Err = OdbcError;

    /// Parses a connection string, raw or prefixed by `odbc://` or `odbc:`;
    /// it never fails.
    fn from_str(s: &str) -> (r: Result<Self, OdbcError>)
        ensures
            r matches Ok(o) && o.connection_string@ == without_scheme(s@)
                && o.buffer_settings.batch_size == 128
                && o.buffer_settings.max_column_size == Some(4096usize)
                && o.connect_timeout == Some(30u64),
    {
        Ok(OdbcConnectOptions::parse(s))
    }
}

} // verus!
