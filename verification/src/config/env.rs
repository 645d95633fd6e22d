//! The configuration that the service reads from environment variables.

use vstd::prelude::*;

verus! {

/// The value of an ASCII decimal digit character.
pub open spec fn digit_value(c: char) -> nat {
    (c as nat - '0' as nat) as nat
}

/// Whether every character of `s` is an ASCII decimal digit.
pub open spec fn all_digits(s: Seq<char>) -> bool {
    forall|i: int| 0 <= i < s.len() ==> '0' <= #[trigger] s[i] <= '9'
}

/// The number that a string of decimal digits denotes.
pub open spec fn digits_value(s: Seq<char>) -> nat
    decreases s.len(),
{
    if s.len() == 0 {
        0
    } else {
        digits_value(s.drop_last()) * 10 + digit_value(s.last())
    }
}

/// The digits of a decimal integer: an optional leading `+` is dropped.
pub open spec fn unsigned_digits(s: Seq<char>) -> Seq<char> {
    if s.len() > 0 && s[0] == '+' {
        s.drop_first()
    } else {
        s
    }
}

/// What parsing `s` as a `u16` gives: one optional `+`, then at least one
/// ASCII digit and nothing else, denoting at most `u16::MAX`.
pub open spec fn parse_u16_spec(s: Seq<char>) -> Option<u16> {
    let d = unsigned_digits(s);
    if d.len() > 0 && all_digits(d) && digits_value(d) <= u16::MAX {
        Some(digits_value(d) as u16)
    } else {
        None
    }
}

/// Appending a digit multiplies the value by ten and adds the digit.
pub(crate) proof fn lemma_digits_value_step(s: Seq<char>, c: char)
    ensures
        digits_value(s.push(c)) == digits_value(s) * 10 + digit_value(c),
{
    assert(s.push(c).drop_last() =~= s);
}

/// Parses a decimal `u16` the way `str::parse::<u16>` does.
pub fn parse_u16(s: &str) -> (r: Option<u16>)
    ensures
        r == parse_u16_spec(s@),
{
    let n = s.unicode_len();
    let mut i: usize = 0;
    if n > 0 && s.get_char(0) == '+' {
        i = 1;
    }
    let start = i;
    let ghost d = unsigned_digits(s@);
    assert(d =~= s@.subrange(start as int, n as int));
    if start == n {
        return None;
    }
    let mut acc: u32 = 0;
    while i < n
        invariant
            start <= i <= n,
            n == s@.len(),
            d == s@.subrange(start as int, n as int),
            d == unsigned_digits(s@),
            all_digits(s@.subrange(start as int, i as int)),
            acc as nat == if digits_value(s@.subrange(start as int, i as int)) <= 65536 {
                digits_value(s@.subrange(start as int, i as int))
            } else {
                65536
            },
        decreases n - i,
    {
        let c = s.get_char(i);
        let ghost pre = s@.subrange(start as int, i as int);
        assert(s@.subrange(start as int, i + 1) =~= pre.push(c));
        proof {
            lemma_digits_value_step(pre, c);
        }
        if c < '0' || c > '9' {
            assert(d[i - start] == c);
            assert(!all_digits(d));
            return None;
        }
        let dv: u32 = (c as u32) - ('0' as u32);
        assert(dv as nat == digit_value(c));
        if acc >= 6554 {
            acc = 65536;
        } else {
            let next = acc * 10 + dv;
            acc = if next > 65536 { 65536 } else { next };
        }
        assert(all_digits(s@.subrange(start as int, i + 1)));
        i = i + 1;
    }
    assert(s@.subrange(start as int, n as int) == d);
    if acc > 65535 {
        None
    } else {
        Some(acc as u16)
    }
}


/// The environment variables the service reads.
#[derive(PartialEq, Eq, Structural, Clone, Copy, Debug)]
pub enum EnvKey {
    Port,
    TokenKey,
    SurrealHost,
    SurrealPort,
    SurrealUser,
    SurrealPassword,
}

impl EnvKey {
    /// The variable's name in the process environment.
    pub fn name(&self) -> (r: &'static str)
        ensures
            r@ == env_key_name(*self),
    {
        match self {
            EnvKey::Port => {
                proof { reveal_strlit("PORT"); }
                "PORT"
            },
            EnvKey::TokenKey => {
                proof { reveal_strlit("TOKEN_KEY"); }
                "TOKEN_KEY"
            },
            EnvKey::SurrealHost => {
                proof { reveal_strlit("SURREAL_HOST"); }
                "SURREAL_HOST"
            },
            EnvKey::SurrealPort => {
                proof { reveal_strlit("SURREAL_PORT"); }
                "SURREAL_PORT"
            },
            EnvKey::SurrealUser => {
                proof { reveal_strlit("SURREAL_USER"); }
                "SURREAL_USER"
            },
            EnvKey::SurrealPassword => {
                proof { reveal_strlit("SURREAL_PASSWORD"); }
                "SURREAL_PASSWORD"
            },
        }
    }
}

/// The name of each environment variable.
pub open spec fn env_key_name(k: EnvKey) -> Seq<char> {
    match k {
        EnvKey::Port => seq!['P', 'O', 'R', 'T'],
        EnvKey::TokenKey => seq!['T', 'O', 'K', 'E', 'N', '_', 'K', 'E', 'Y'],
        EnvKey::SurrealHost => seq!['S', 'U', 'R', 'R', 'E', 'A', 'L', '_', 'H', 'O', 'S', 'T'],
        EnvKey::SurrealPort => seq!['S', 'U', 'R', 'R', 'E', 'A', 'L', '_', 'P', 'O', 'R', 'T'],
        EnvKey::SurrealUser => seq!['S', 'U', 'R', 'R', 'E', 'A', 'L', '_', 'U', 'S', 'E', 'R'],
        EnvKey::SurrealPassword => seq![
            'S', 'U', 'R', 'R', 'E', 'A', 'L', '_', 'P', 'A', 'S', 'S', 'W', 'O', 'R', 'D',
        ],
    }
}

/// Why the configuration could not be loaded.
#[derive(PartialEq, Eq, Structural, Clone, Copy, Debug)]
pub enum EnvError {
    /// The variable is not set (or does not hold valid unicode).
    Missing(EnvKey),
    /// The variable is set but does not hold a valid port number.
    Invalid(EnvKey),
}

/// The message that a failed load is reported with: `Missing env var ` or
/// `Invalid `, then the variable's name.
pub open spec fn env_error_message(e: EnvError) -> Seq<char> {
    match e {
        EnvError::Missing(k) => seq![
            'M', 'i', 's', 's', 'i', 'n', 'g', ' ', 'e', 'n', 'v', ' ', 'v', 'a', 'r', ' ',
        ] + env_key_name(k),
        EnvError::Invalid(k) => seq!['I', 'n', 'v', 'a', 'l', 'i', 'd', ' '] + env_key_name(k),
    }
}

impl EnvError {
    /// The message that the failure is reported with, such as
    /// `Missing env var PORT` or `Invalid SURREAL_PORT`.
    pub fn message(&self) -> (r: String)
        ensures
            r@ == env_error_message(*self),
    {
        match self {
            EnvError::Missing(k) => {
                proof { reveal_strlit("Missing env var "); }
                let mut m = String::from_str("Missing env var ");
                m.append(k.name());
                m
            },
            EnvError::Invalid(k) => {
                proof { reveal_strlit("Invalid "); }
                let mut m = String::from_str("Invalid ");
                m.append(k.name());
                m
            },
        }
    }
}

/// The raw values of the environment variables; `None` where a variable
/// could not be read.
pub struct EnvSource {
    pub port: Option<String>,
    pub token_key: Option<String>,
    pub surreal_host: Option<String>,
    pub surreal_port: Option<String>,
    pub surreal_user: Option<String>,
    pub surreal_password: Option<String>,
}

/// The service configuration.
#[derive(Debug)]
pub struct EnvVar {
    pub port: u16,
    pub token_key: String,
    pub surreal_host: String,
    pub surreal_port: u16,
    pub surreal_user: String,
    pub surreal_password: String,
}

impl Clone for EnvVar {
    fn clone(&self) -> (r: Self)
        ensures
            r == *self,
    {
        EnvVar {
            port: self.port,
            token_key: self.token_key.clone(),
            surreal_host: self.surreal_host.clone(),
            surreal_port: self.surreal_port,
            surreal_user: self.surreal_user.clone(),
            surreal_password: self.surreal_password.clone(),
        }
    }
}

/// The configuration that a source of raw values gives: the variables are
/// read in the order `PORT`, `TOKEN_KEY`, `SURREAL_HOST`, `SURREAL_PORT`,
/// `SURREAL_USER`, `SURREAL_PASSWORD`, each port parsed as soon as it is
/// read, and the first failure is the error.
pub open spec fn load_env_spec(src: EnvSource) -> Result<EnvVar, EnvError> {
    match src.port {
        None => Err(EnvError::Missing(EnvKey::Port)),
        Some(port_text) => match parse_u16_spec(port_text@) {
            None => Err(EnvError::Invalid(EnvKey::Port)),
            Some(port) => match src.token_key {
                None => Err(EnvError::Missing(EnvKey::TokenKey)),
                Some(token_key) => match src.surreal_host {
                    None => Err(EnvError::Missing(EnvKey::SurrealHost)),
                    Some(surreal_host) => match src.surreal_port {
                        None => Err(EnvError::Missing(EnvKey::SurrealPort)),
                        Some(sp_text) => match parse_u16_spec(sp_text@) {
                            None => Err(EnvError::Invalid(EnvKey::SurrealPort)),
                            Some(surreal_port) => match src.surreal_user {
                                None => Err(EnvError::Missing(EnvKey::SurrealUser)),
                                Some(surreal_user) => match src.surreal_password {
                                    None => Err(EnvError::Missing(EnvKey::SurrealPassword)),
                                    Some(surreal_password) => Ok(
                                        EnvVar {
                                            port,
                                            token_key,
                                            surreal_host,
                                            surreal_port,
                                            surreal_user,
                                            surreal_password,
                                        },
                                    ),
                                },
                            },
                        },
                    },
                },
            },
        },
    }
}

/// Builds the configuration from the raw variable values.
pub fn load_env(source: EnvSource) -> (r: Result<EnvVar, EnvError>)
    ensures
        r == load_env_spec(source),
{
    let ghost src = source;
    let EnvSource { port, token_key, surreal_host, surreal_port, surreal_user, surreal_password } =
        source;
    let port = match port {
        None => return Err(EnvError::Missing(EnvKey::Port)),
        Some(text) => match parse_u16(text.as_str()) {
            None => return Err(EnvError::Invalid(EnvKey::Port)),
            Some(p) => p,
        },
    };
    let token_key = match token_key {
        None => return Err(EnvError::Missing(EnvKey::TokenKey)),
        Some(v) => v,
    };
    let surreal_host = match surreal_host {
        None => return Err(EnvError::Missing(EnvKey::SurrealHost)),
        Some(v) => v,
    };
    let surreal_port = match surreal_port {
        None => return Err(EnvError::Missing(EnvKey::SurrealPort)),
        Some(text) => match parse_u16(text.as_str()) {
            None => return Err(EnvError::Invalid(EnvKey::SurrealPort)),
            Some(p) => p,
        },
    };
    let surreal_user = match surreal_user {
        None => return Err(EnvError::Missing(EnvKey::SurrealUser)),
        Some(v) => v,
    };
    let surreal_password = match surreal_password {
        None => return Err(EnvError::Missing(EnvKey::SurrealPassword)),
        Some(v) => v,
    };
    Ok(EnvVar { port, token_key, surreal_host, surreal_port, surreal_user, surreal_password })
}

/// Keeps what the first load of the configuration gave: the configuration,
/// or the error that stopped it.
pub struct EnvCell {
    /// `None` until the first load; then that load's outcome, for good.
    pub loaded: Option<Result<EnvVar, EnvError>>,
}

impl EnvCell {
    /// A cell in which nothing has been loaded yet.
    pub fn new() -> (r: EnvCell)
        ensures
            r.loaded is None,
    {
        EnvCell { loaded: None }
    }
}

/// What `get` answers on `cell` and `src`, and what the cell holds after.
pub open spec fn get_outcome(cell: EnvCell, src: EnvSource) -> (Result<EnvVar, EnvError>, EnvCell) {
    match cell.loaded {
        Some(r) => (r, cell),
        None => (load_env_spec(src), EnvCell { loaded: Some(load_env_spec(src)) }),
    }
}

/// Gives the configuration. The first call loads it from `source` and keeps
/// the outcome in `cell`, a failure too; every later call gives that outcome
/// again and does not look at its source.
pub fn get(cell: &mut EnvCell, source: EnvSource) -> (r: Result<EnvVar, EnvError>)
    ensures
        r == get_outcome(*old(cell), source).0,
        *final(cell) == get_outcome(*old(cell), source).1,
{
    match &cell.loaded {
        Some(Ok(v)) => {
            return Ok(v.clone());
        },
        Some(Err(e)) => {
            return Err(*e);
        },
        None => {},
    }
    let r = load_env(source);
    let kept = match &r {
        Ok(v) => Ok(v.clone()),
        Err(e) => Err(*e),
    };
    cell.loaded = Some(kept);
    r
}

/// Once `get` has answered, every later `get` gives the same answer, whatever
/// the environment then holds: the configuration that was loaded, or, where
/// the first load failed, the same error.
pub proof fn law_get_is_stable(cell: EnvCell, first: EnvSource, later: EnvSource)
    ensures
        get_outcome(get_outcome(cell, first).1, later).0 == get_outcome(cell, first).0,
        get_outcome(get_outcome(cell, first).1, later).1 == get_outcome(cell, first).1,
{
}

/// After a failed load, `get` fails again on every later environment.
pub proof fn law_failed_load_stays_failed(cell: EnvCell, first: EnvSource, later: EnvSource)
    requires
        get_outcome(cell, first).0 is Err,
    ensures
        get_outcome(get_outcome(cell, first).1, later).0 is Err,
        get_outcome(get_outcome(cell, first).1, later).0 == get_outcome(cell, first).0,
{
    law_get_is_stable(cell, first, later);
}

} // verus!
