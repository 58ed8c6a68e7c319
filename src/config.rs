use crate::error::BackupError;
use vstd::prelude::*;

verus! {

/// The program that writes a database's dump to its standard output.
pub const DUMP_PROGRAM: &'static str = "pg_dump";

/// The environment variable through which the dump utility takes the
/// password, so that it never shows in a process listing.
pub const PASSWORD_VARIABLE: &'static str = "PGPASSWORD";

/// What is needed to reach the database server: the login, the server's
/// address, and the administrative database that discovery connects to.
pub struct DatabaseConfig {
    pub username: String,
    pub password: Option<String>,
    pub database: String,
    pub host: String,
    pub port: u16,
}

/// How to run the dump utility for one database: the program, its
/// arguments, and the variables to add to its environment.
pub struct DumpCommand {
    pub program: String,
    pub args: Vec<String>,
    pub environment: Vec<(String, String)>,
}

/// The arguments that name the server, the port, the database and the user.
pub open spec fn dump_args_spec(host: Seq<char>, port: u16, database: Seq<char>, username: Seq<
    char,
>) -> Seq<Seq<char>> {
    seq!["-h"@, host, "-p"@, decimal(port as nat), "-d"@, database, "-U"@, username]
}

impl DatabaseConfig {
    /// Builds a configuration from its values as read, the port still as
    /// text; fails with `Config` unless the text is a port number.
    pub fn from_values(
        username: String,
        password: Option<String>,
        database: String,
        host: String,
        port: &str,
    ) -> (r: Result<DatabaseConfig, BackupError>)
        ensures
            match port_of(port@) {
                Some(p) => r matches Ok(c) && c.username == username && c.password == password
                    && c.database == database && c.host == host && c.port == p,
                None => r == Err::<DatabaseConfig, BackupError>(BackupError::Config),
            },
    {
        match parse_port(port) {
            Some(p) => Ok(DatabaseConfig { username, password, database, host, port: p }),
            None => Err(BackupError::Config),
        }
    }

    /// The command that dumps `database` from this server: the server,
    /// port, database and user go in the arguments, and the password, where
    /// there is one, only in the environment.
    pub fn dump_command(&self, database: &str) -> (r: DumpCommand)
        ensures
            r.program@ == DUMP_PROGRAM@,
            r.args.deep_view() == dump_args_spec(self.host@, self.port, database@, self.username@),
            match self.password {
                Some(p) => r.environment@.len() == 1 && r.environment@[0].0@ == PASSWORD_VARIABLE@
                    && r.environment@[0].1@ == p@,
                None => r.environment@.len() == 0,
            },
    {
        let mut args: Vec<String> = Vec::new();
        args.push(String::from_str("-h"));
        args.push(self.host.clone());
        args.push(String::from_str("-p"));
        args.push(decimal_text(self.port));
        args.push(String::from_str("-d"));
        args.push(String::from_str(database));
        args.push(String::from_str("-U"));
        args.push(self.username.clone());
        let mut environment: Vec<(String, String)> = Vec::new();
        match &self.password {
            Some(p) => environment.push((String::from_str(PASSWORD_VARIABLE), p.clone())),
            None => {},
        }
        proof {
            assert(args.deep_view() =~= dump_args_spec(
                self.host@,
                self.port,
                database@,
                self.username@,
            ));
        }
        DumpCommand { program: String::from_str(DUMP_PROGRAM), args, environment }
    }
}

/// A decimal digit.
pub open spec fn is_digit(c: char) -> bool {
    '0' <= c && c <= '9'
}

/// A text of decimal digits only.
pub open spec fn all_digits(s: Seq<char>) -> bool {
    forall|i: int| 0 <= i < s.len() ==> is_digit(#[trigger] s[i])
}

/// The number that a sequence of decimal digits writes.
pub open spec fn digits_value(s: Seq<char>) -> nat
    decreases s.len(),
{
    if s.len() == 0 {
        0
    } else {
        digits_value(s.drop_last()) * 10 + (s.last() as u32 - '0' as u32) as nat
    }
}

/// The text after an optional leading `+`.
pub open spec fn unsigned_part(s: Seq<char>) -> Seq<char> {
    if s.len() > 0 && s[0] == '+' {
        s.subrange(1, s.len() as int)
    } else {
        s
    }
}

/// The port number that a text writes in decimal (an optional `+`, then at
/// least one digit, the value at most 65535), or `None`.
pub open spec fn port_of(s: Seq<char>) -> Option<u16> {
    let d = unsigned_part(s);
    if d.len() > 0 && all_digits(d) && digits_value(d) <= u16::MAX {
        Some(digits_value(d) as u16)
    } else {
        None
    }
}

/// The value of a run of digits is at least the value of any prefix of it.
proof fn lemma_prefix_value_le(s: Seq<char>, k: int)
    requires
        0 <= k <= s.len(),
    ensures
        digits_value(s.subrange(0, k)) <= digits_value(s),
    decreases s.len(),
{
    if k < s.len() {
        assert(s.drop_last().subrange(0, k) == s.subrange(0, k));
        lemma_prefix_value_le(s.drop_last(), k);
    } else {
        assert(s.subrange(0, k) == s);
    }
}

/// Reads a port number written in decimal.
pub fn parse_port(text: &str) -> (r: Option<u16>)
    ensures
        r == port_of(text@),
{
    let len = text.unicode_len();
    let mut i: usize = 0;
    if len > 0 && text.get_char(0) == '+' {
        i = 1;
    }
    let first = i;
    let ghost d = unsigned_part(text@);
    proof {
        assert(d == text@.subrange(first as int, len as int));
    }
    if first == len {
        return None;
    }
    let mut value: u32 = 0;
    while i < len
        invariant
            first <= i <= len,
            first < len,
            len == text@.len(),
            d == text@.subrange(first as int, len as int),
            d == unsigned_part(text@),
            all_digits(d.subrange(0, i - first)),
            value == digits_value(d.subrange(0, i - first)),
            value <= u16::MAX,
        decreases len - i,
    {
        let c = text.get_char(i);
        proof {
            assert(d[i - first] == c);
        }
        if !('0' <= c && c <= '9') {
            proof {
                assert(!is_digit(d[i - first]));
                assert(!all_digits(d));
            }
            return None;
        }
        let ghost before = d.subrange(0, i - first);
        let ghost after = d.subrange(0, i - first + 1);
        proof {
            assert(after.drop_last() == before);
            assert(after.last() == c);
            assert(digits_value(after) == digits_value(before) * 10 + (c as u32 - '0' as u32));
            assert forall|j: int| 0 <= j < after.len() implies is_digit(#[trigger] after[j]) by {
                if j < before.len() {
                    assert(after[j] == before[j]);
                }
            }
        }
        value = value * 10 + (c as u32 - '0' as u32);
        i = i + 1;
        if value > 65535 {
            proof {
                if all_digits(d) {
                    lemma_prefix_value_le(d, i - first);
                }
                assert(port_of(text@) is None);
            }
            return None;
        }
    }
    proof {
        assert(d.subrange(0, i - first) == d);
    }
    Some(value as u16)
}

/// The decimal digit for `n < 10`.
pub open spec fn digit_char(n: nat) -> char {
    seq!['0', '1', '2', '3', '4', '5', '6', '7', '8', '9'][n as int]
}

/// The decimal text of a number, without leading zeros.
pub open spec fn decimal(n: nat) -> Seq<char>
    decreases n,
{
    if n < 10 {
        seq![digit_char(n)]
    } else {
        decimal(n / 10) + seq![digit_char(n % 10)]
    }
}

/// The one-digit text of `n < 10`.
fn digit_text(n: u16) -> (r: &'static str)
    requires
        n < 10,
    ensures
        r@ == seq![digit_char(n as nat)],
{
    proof {
        reveal_strlit("0");
        reveal_strlit("1");
        reveal_strlit("2");
        reveal_strlit("3");
        reveal_strlit("4");
        reveal_strlit("5");
        reveal_strlit("6");
        reveal_strlit("7");
        reveal_strlit("8");
        reveal_strlit("9");
    }
    match n {
        0 => "0",
        1 => "1",
        2 => "2",
        3 => "3",
        4 => "4",
        5 => "5",
        6 => "6",
        7 => "7",
        8 => "8",
        _ => "9",
    }
}

/// Writes a number in decimal.
pub fn decimal_text(n: u16) -> (r: String)
    ensures
        r@ == decimal(n as nat),
{
    let mut rest: u16 = n / 10;
    let mut text = String::from_str(digit_text(n % 10));
    while rest > 0
        invariant
            rest > 0 ==> decimal(n as nat) == decimal(rest as nat) + text@,
            rest == 0 ==> decimal(n as nat) == text@,
        decreases rest,
    {
        let digit = String::from_str(digit_text(rest % 10));
        let ghost old_text = text@;
        text = digit.concat(text.as_str());
        proof {
            let ds = seq![digit_char((rest % 10) as nat)];
            assert(text@ == ds + old_text);
            if rest >= 10 {
                assert(decimal(rest as nat) == decimal((rest / 10) as nat) + ds);
                assert(decimal((rest / 10) as nat) + ds + old_text =~= decimal((rest / 10) as nat)
                    + (ds + old_text));
            } else {
                assert(decimal(rest as nat) == ds);
            }
        }
        rest = rest / 10;
    }
    text
}

} // verus!
