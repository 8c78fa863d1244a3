//! The two settings the service needs, checked once at start-up.
use vstd::prelude::*;

verus! {

/// The settings of the service: where the store is, and where to listen.
#[derive(Clone, Debug)]
pub struct Config {
    pub database_url: String,
    pub endpoint_url: String,
}

/// A setting that was not given.
#[derive(Clone, Copy, Debug, PartialEq, Eq, Structural)]
pub enum ConfigError {
    MissingDatabaseUrl,
    MissingEndpointUrl,
}

/// Builds the settings from the values found for them; each is required, the
/// store's first.
pub fn get_config(database_url: Option<String>, endpoint_url: Option<String>) -> (r: Result<
    Config,
    ConfigError,
>)
    ensures
        match (database_url, endpoint_url) {
            (None, _) => r == Err::<Config, ConfigError>(ConfigError::MissingDatabaseUrl),
            (Some(_), None) => r == Err::<Config, ConfigError>(ConfigError::MissingEndpointUrl),
            (Some(d), Some(e)) => r == Ok::<Config, ConfigError>(
                (Config { database_url: d, endpoint_url: e }),
            ),
        },
{
    match (database_url, endpoint_url) {
        (None, _) => Err(ConfigError::MissingDatabaseUrl),
        (Some(_), None) => Err(ConfigError::MissingEndpointUrl),
        (Some(database_url), Some(endpoint_url)) => Ok(Config { database_url, endpoint_url }),
    }
}

/// The position of the first `c` in `s`, if there is one.
pub open spec fn first_index(s: Seq<char>, c: char) -> Option<int>
    decreases s.len(),
{
    if s.len() == 0 {
        None
    } else if s[0] == c {
        Some(0)
    } else {
        match first_index(s.drop_first(), c) {
            Some(i) => Some(i + 1),
            None => None,
        }
    }
}

/// The host part of a connection string: what stands between its first `@`
/// and its first `?`, where both are there and the `@` comes first.
pub open spec fn address_in(url: Seq<char>) -> Option<Seq<char>> {
    match (first_index(url, '@'), first_index(url, '?')) {
        (Some(at), Some(q)) => if at < q {
            Some(url.subrange(at + 1, q))
        } else {
            None
        },
        _ => None,
    }
}

proof fn lemma_first_index_at(s: Seq<char>, c: char, i: int)
    requires
        0 <= i < s.len(),
        s[i] == c,
        forall|j: int| 0 <= j < i ==> s[j] != c,
    ensures
        first_index(s, c) == Some(i),
    decreases i,
{
    if i > 0 {
        lemma_first_index_at(s.drop_first(), c, i - 1);
    }
}

proof fn lemma_first_index_none(s: Seq<char>, c: char)
    requires
        forall|j: int| 0 <= j < s.len() ==> s[j] != c,
    ensures
        first_index(s, c) is None,
    decreases s.len(),
{
    if s.len() > 0 {
        lemma_first_index_none(s.drop_first(), c);
    }
}

fn find_char(s: &str, c: char) -> (r: Option<usize>)
    ensures
        match r {
            Some(i) => first_index(s@, c) == Some(i as int) && i < s@.len(),
            None => first_index(s@, c) is None,
        },
{
    let n = s.unicode_len();
    let mut i: usize = 0;
    while i < n
        invariant
            n == s@.len(),
            i <= n,
            forall|j: int| 0 <= j < i ==> s@[j] != c,
        decreases n - i,
    {
        if s.get_char(i) == c {
            proof {
                lemma_first_index_at(s@, c, i as int);
            }
            return Some(i);
        }
        i = i + 1;
    }
    proof {
        lemma_first_index_none(s@, c);
    }
    None
}

/// The host part of a connection string (see `address_in`).
pub fn database_address(database_url: &str) -> (r: Option<String>)
    ensures
        match r {
            Some(a) => address_in(database_url@) == Some(a@),
            None => address_in(database_url@) is None,
        },
{
    match (find_char(database_url, '@'), find_char(database_url, '?')) {
        (Some(at), Some(q)) => {
            if at < q {
                Some(database_url.substring_char(at + 1, q).to_owned())
            } else {
                None
            }
        },
        _ => None,
    }
}

} // verus!
