//! Database settings and the connection strings built from them.

use vstd::prelude::*;
use vstd::string::StringExecFns;

verus! {

/// Settings of the whole application.
pub struct Settings {
    pub database: DatabaseSettings,
    pub application_port: u16,
}

/// Where and as whom the application reaches its Postgres database.
pub struct DatabaseSettings {
    pub username: String,
    pub password: String,
    pub port: u16,
    pub host: String,
    pub database_name: String,
}

/// The character of a decimal digit `d < 10`.
pub open spec fn digit_char(d: nat) -> char {
    (d + 48) as char
}

/// The decimal numeral of `n`, most significant digit first, no leading zeros.
pub open spec fn decimal(n: nat) -> Seq<char>
    decreases n,
{
    if n < 10 {
        seq![digit_char(n)]
    } else {
        decimal(n / 10).push(digit_char(n % 10))
    }
}

/// Whether `c` is one of the characters `0` to `9`.
pub open spec fn is_digit(c: char) -> bool {
    48 <= (c as int) <= 57
}

/// The number that a string of decimal digits denotes.
pub open spec fn numeral_value(s: Seq<char>) -> nat
    decreases s.len(),
{
    if s.len() == 0 {
        0
    } else {
        (10 * numeral_value(s.drop_last()) + ((s.last() as int) - 48)) as nat
    }
}

/// The numeral of `n` is made of digits, starts with a non-zero digit unless
/// `n` is zero, and denotes `n`.
pub proof fn lemma_decimal_denotes(n: nat)
    ensures
        decimal(n).len() >= 1,
        forall|i: int| 0 <= i < decimal(n).len() ==> is_digit(#[trigger] decimal(n)[i]),
        n > 0 ==> decimal(n)[0] != '0',
        numeral_value(decimal(n)) == n,
    decreases n,
{
    if n >= 10 {
        lemma_decimal_denotes(n / 10);
        let d = decimal(n);
        assert(d.last() == digit_char(n % 10));
        assert((digit_char(n % 10) as int) == (n % 10) + 48);
        assert(n == 10 * (n / 10) + n % 10);
        assert(d.drop_last() =~= decimal(n / 10));
        assert(numeral_value(d) == 10 * numeral_value(decimal(n / 10)) + (n % 10));
        assert(d.drop_last() =~= decimal(n / 10));
        assert forall|i: int| 0 <= i < d.len() implies is_digit(#[trigger] d[i]) by {
            if i < d.len() - 1 {
                assert(d[i] == decimal(n / 10)[i]);
            }
        }
    } else {
        assert(decimal(n).drop_last() =~= Seq::<char>::empty());
        assert((digit_char(n) as int) == n + 48);
        assert(numeral_value(decimal(n)) == 10 * numeral_value(Seq::<char>::empty()) + n);
    }
}

/// `postgres://`
pub open spec fn postgres_scheme() -> Seq<char> {
    seq!['p', 'o', 's', 't', 'g', 'r', 'e', 's', ':', '/', '/']
}

impl DatabaseSettings {
    /// The host part: the override if there is one, else `host:port`.
    pub open spec fn spec_host(&self, db_host: Option<Seq<char>>) -> Seq<char> {
        match db_host {
            Some(h) => h,
            None => self.host@ + seq![':'] + decimal(self.port as nat),
        }
    }

    /// The user part: the override if there is one, else `username:password`.
    pub open spec fn spec_user(&self, db_user: Option<Seq<char>>) -> Seq<char> {
        match db_user {
            Some(u) => u,
            None => self.username@ + seq![':'] + self.password@,
        }
    }

    /// The database name: the override if there is one, else `database_name`.
    pub open spec fn spec_name(&self, db_name: Option<Seq<char>>) -> Seq<char> {
        match db_name {
            Some(n) => n,
            None => self.database_name@,
        }
    }

    /// `postgres://{user}@{host}`
    pub open spec fn spec_connection_string_without_db(
        &self,
        db_host: Option<Seq<char>>,
        db_user: Option<Seq<char>>,
    ) -> Seq<char> {
        postgres_scheme() + self.spec_user(db_user) + seq!['@'] + self.spec_host(db_host)
    }

    /// `postgres://{user}@{host}/{name}`
    pub open spec fn spec_connection_string(
        &self,
        db_host: Option<Seq<char>>,
        db_name: Option<Seq<char>>,
        db_user: Option<Seq<char>>,
    ) -> Seq<char> {
        self.spec_connection_string_without_db(db_host, db_user) + seq!['/'] + self.spec_name(
            db_name,
        )
    }
}

/// The full connection string is the one without a database, then `/` and
/// the database name, whatever the overrides.
pub proof fn lemma_connection_string_extends_without_db(
    settings: DatabaseSettings,
    db_host: Option<Seq<char>>,
    db_name: Option<Seq<char>>,
    db_user: Option<Seq<char>>,
)
    ensures
        settings.spec_connection_string(db_host, db_name, db_user)
            == settings.spec_connection_string_without_db(db_host, db_user) + seq!['/']
            + settings.spec_name(db_name),
        settings.spec_connection_string_without_db(db_host, db_user).len()
            < settings.spec_connection_string(db_host, db_name, db_user).len(),
{
}

/// The connection string names the user, the host and the database, each
/// either as overridden or, without an override, as in the settings: the
/// user as `username:password`, the host as `host:port` with the port in
/// decimal, the database as the whole `database_name`.
pub proof fn lemma_connection_string_parts(
    settings: DatabaseSettings,
    db_host: Option<Seq<char>>,
    db_name: Option<Seq<char>>,
    db_user: Option<Seq<char>>,
)
    ensures
        ({
            let user = match db_user {
                Some(u) => u,
                None => settings.username@ + seq![':'] + settings.password@,
            };
            let host = match db_host {
                Some(h) => h,
                None => settings.host@ + seq![':'] + decimal(settings.port as nat),
            };
            let name = match db_name {
                Some(n) => n,
                None => settings.database_name@,
            };
            &&& settings.spec_connection_string_without_db(db_host, db_user) == seq![
                'p',
                'o',
                's',
                't',
                'g',
                'r',
                'e',
                's',
                ':',
                '/',
                '/',
            ] + user + seq!['@'] + host
            &&& settings.spec_connection_string(db_host, db_name, db_user) == seq![
                'p',
                'o',
                's',
                't',
                'g',
                'r',
                'e',
                's',
                ':',
                '/',
                '/',
            ] + user + seq!['@'] + host + seq!['/'] + name
        }),
{
}

/// Without overrides the connection string is
/// `postgres://{username}:{password}@{host}:{port}/{database_name}`, each
/// field written in full.
pub proof fn lemma_connection_string_from_settings(settings: DatabaseSettings)
    ensures
        settings.spec_connection_string(None, None, None) == seq![
            'p',
            'o',
            's',
            't',
            'g',
            'r',
            'e',
            's',
            ':',
            '/',
            '/',
        ] + settings.username@ + seq![':'] + settings.password@ + seq!['@'] + settings.host@
            + seq![':'] + decimal(settings.port as nat) + seq!['/'] + settings.database_name@,
        settings.spec_user(None) == settings.username@ + seq![':'] + settings.password@,
        settings.spec_name(None) == settings.database_name@,
{
    lemma_connection_string_parts(settings, None, None, None);
}

/// The view of an optional string.
pub open spec fn opt_view(s: Option<String>) -> Option<Seq<char>> {
    match s {
        Some(v) => Some(v@),
        None => None,
    }
}

/// An optional string's view is absent exactly when the string is, and is
/// the string's view when present.
pub proof fn lemma_opt_view(s: Option<String>)
    ensures
        opt_view(s) is None <==> s is None,
        s matches Some(v) ==> opt_view(s) == Some(v@),
{
}

/// The one-character string of the digit `d`.
fn digit_str(d: u16) -> (r: &'static str)
    requires
        d < 10,
    ensures
        r@ == seq![digit_char(d as nat)],
{
    proof {
        reveal_strlit("0");
        reveal_strlit("1");
        reveal_strlit("2");
        reveal_strlit("3");
        reveal_strlit("4");
        reveal_strlit("5");
        reveal_strlit("6");
        reveal_strlit("7");
        reveal_strlit("8");
        reveal_strlit("9");
    }
    match d {
        0 => "0",
        1 => "1",
        2 => "2",
        3 => "3",
        4 => "4",
        5 => "5",
        6 => "6",
        7 => "7",
        8 => "8",
        _ => "9",
    }
}

/// Appends the decimal numeral of `n` to `s`.
pub fn push_decimal(s: &mut String, n: u16)
    ensures
        final(s)@ == old(s)@ + decimal(n as nat),
    decreases n,
{
    if n >= 10 {
        push_decimal(s, n / 10);
    }
    s.append(digit_str(n % 10));
    proof {
        assert(s@ =~= old(s)@ + decimal(n as nat));
    }
}

impl DatabaseSettings {
    /// The host part of a connection string: `db_host` where it is given
    /// (the `DB_HOST` variable), else `host:port`.
    fn host_part(&self, db_host: Option<String>) -> (r: String)
        ensures
            r@ == self.spec_host(opt_view(db_host)),
    {
        match db_host {
            Some(h) => h,
            None => {
                let mut r = self.host.clone();
                r.append(":");
                push_decimal(&mut r, self.port);
                proof {
                    reveal_strlit(":");
                    assert(r@ =~= self.spec_host(None));
                }
                r
            },
        }
    }

    /// The user part of a connection string: `db_user` where it is given
    /// (the `DB_USER` variable), else `username:password`.
    fn user_part(&self, db_user: Option<String>) -> (r: String)
        ensures
            r@ == self.spec_user(opt_view(db_user)),
    {
        match db_user {
            Some(u) => u,
            None => {
                let mut r = self.username.clone();
                r.append(":");
                r.append(self.password.as_str());
                proof {
                    reveal_strlit(":");
                    assert(r@ =~= self.spec_user(None));
                }
                r
            },
        }
    }

    /// `postgres://{user}@{host}`, where each part is the given override
    /// (read from `DB_USER` and `DB_HOST`) or else built from the settings.
    pub fn connection_string_without_db(
        &self,
        db_host: Option<String>,
        db_user: Option<String>,
    ) -> (r: String)
        ensures
            r@ == self.spec_connection_string_without_db(opt_view(db_host), opt_view(db_user)),
    {
        let host = self.host_part(db_host);
        let user = self.user_part(db_user);
        let mut r = String::new();
        r.append("postgres://");
        r.append(user.as_str());
        r.append("@");
        r.append(host.as_str());
        proof {
            reveal_strlit("postgres://");
            reveal_strlit("@");
            assert(r@ =~= self.spec_connection_string_without_db(
                opt_view(db_host),
                opt_view(db_user),
            ));
        }
        r
    }

    /// `postgres://{user}@{host}/{name}`, where each part is the given
    /// override (read from `DB_USER`, `DB_HOST` and `DB_NAME`) or else built
    /// from the settings.
    pub fn connection_string(
        &self,
        db_host: Option<String>,
        db_name: Option<String>,
        db_user: Option<String>,
    ) -> (r: String)
        ensures
            r@ == self.spec_connection_string(
                opt_view(db_host),
                opt_view(db_name),
                opt_view(db_user),
            ),
    {
        let name = match db_name {
            Some(n) => n,
            None => self.database_name.clone(),
        };
        let mut r = self.connection_string_without_db(db_host, db_user);
        r.append("/");
        r.append(name.as_str());
        proof {
            reveal_strlit("/");
            assert(r@ =~= self.spec_connection_string(
                opt_view(db_host),
                opt_view(db_name),
                opt_view(db_user),
            ));
        }
        r
    }
}

} // verus!
