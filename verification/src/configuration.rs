//! Server configuration: the listening ports and the TLS material, with
//! `~` in configured paths standing for the user's home directory.

use vstd::prelude::*;

verus! {

/// Port on which plain HTTP requests are accepted (and redirected).
pub const HTTP_PORT: u16 = 8000;

/// Port on which the HTTPS service listens.
pub const HTTPS_PORT: u16 = 3000;

/// Where the TLS certificate and private key are, and the key's passphrase.
pub struct TLS {
    pub crt: String,
    pub key: String,
    pub pass: String,
}

/// The server configuration.
pub struct Config {
    pub tls: TLS,
}

/// Whether `r` is a plain relative path: not empty, without a separator at
/// either end, without two separators in a row, and without `.` components.
pub open spec fn plain_relative(r: Seq<char>) -> bool {
    &&& r.len() > 0
    &&& r[0] != '/'
    &&& r[r.len() - 1] != '/'
    &&& forall|i: int| 0 <= i < r.len() - 1 ==> !(r[i] == '/' && #[trigger] r[i + 1] == '/')
    &&& forall|i: int|
        0 <= i < r.len() ==> !(#[trigger] r[i] == '.' && (i == 0 || r[i - 1] == '/') && (i
            == r.len() - 1 || r[i + 1] == '/'))
}

/// Whether a path's first component is `~`: the path is `~`, or starts
/// with `~/`.
pub open spec fn starts_with_home_component(path: Seq<char>) -> bool {
    path.len() > 0 && path[0] == '~' && (path.len() == 1 || path[1] == '/')
}

/// The text that `Path::strip_prefix("~")` leaves of a path that starts with
/// `~/` followed by something other than a plain relative path (such as
/// `~//a`, `~/./a` or `~/a/`).
pub uninterp spec fn home_relative_text(path: Seq<char>) -> Seq<char>;

/// Whether the path starts with `~/` followed by something other than a
/// plain relative path.
pub open spec fn rest_is_only_named(path: Seq<char>) -> bool {
    starts_with_home_component(path) && path.len() > 2 && !plain_relative(
        path.subrange(2, path.len() as int),
    )
}

/// What `Path::strip_prefix("~")` leaves of a path: nothing when its first
/// component is not `~`; the empty path for `~` and `~/`; `r` for `~/r` with
/// `r` plain; otherwise the text named by `home_relative_text`.
pub open spec fn home_relative_part(path: Seq<char>) -> Option<Seq<char>> {
    if !starts_with_home_component(path) {
        None
    } else if path.len() <= 2 {
        Some(Seq::<char>::empty())
    } else if rest_is_only_named(path) {
        Some(home_relative_text(path))
    } else {
        Some(path.subrange(2, path.len() as int))
    }
}

/// What `Path::join` gives on Unix: a rest that starts with `/` replaces
/// the base; otherwise the rest follows the base, after a `/` unless the base
/// is empty or already ends with one.
pub open spec fn joined_path(base: Seq<char>, rest: Seq<char>) -> Seq<char> {
    if rest.len() > 0 && rest[0] == '/' {
        rest
    } else if base.len() == 0 || base[base.len() - 1] == '/' {
        base + rest
    } else {
        base + seq!['/'] + rest
    }
}

/// Calls `std::path::Path::strip_prefix` with the prefix `~`.  Paths match
/// by whole components, so a path whose first component is not `~` gives
/// nothing; `~` and `~/` give the empty path; `~/r` gives `r` when `r` is a
/// plain relative path.  For the other paths that start with `~/` the text
/// is only named (`home_relative_text`).
#[verifier::external_body]
fn strip_home_prefix(path: &str) -> (rest: Option<String>)
    ensures
        rest is Some <==> home_relative_part(path@) is Some,
        rest matches Some(r) ==> r@ == home_relative_part(path@)->Some_0,
        rest matches Some(r) ==> (rest_is_only_named(path@) ==> r@ == home_relative_text(path@)),
{
    match std::path::Path::new(path).strip_prefix("~") {
        Ok(rest) => Some(rest.to_string_lossy().into_owned()),
        Err(_) => None,
    }
}

/// Calls `std::path::Path::join`, which on Unix is `joined_path`.
#[verifier::external_body]
fn join_path(base: &str, rest: &str) -> (joined: String)
    ensures
        joined@ == joined_path(base@, rest@),
{
    std::path::Path::new(base).join(rest).to_string_lossy().into_owned()
}

/// The path that `path` denotes once a leading `~` is read as `home`.
pub open spec fn expanded_path(path: Seq<char>, home: Seq<char>) -> Seq<char> {
    match home_relative_part(path) {
        Some(rest) => joined_path(home, rest),
        None => path,
    }
}

/// Replaces a leading `~` component of `p` by the home directory.  The home
/// directory is only consulted when `p` starts with `~`; if it is then not
/// available, its error is returned.
pub fn expand_home<E>(p: String, home: Result<String, E>) -> (res: Result<String, E>)
    ensures
        home_relative_part(p@) is None ==> (res matches Ok(q) && q@ == p@),
        home_relative_part(p@) is Some ==> match home {
            Ok(h) => res matches Ok(q) && q@ == expanded_path(p@, h@),
            Err(e) => res == Err::<String, E>(e),
        },
{
    match strip_home_prefix(p.as_str()) {
        None => Ok(p),
        Some(rest) => match home {
            Ok(h) => Ok(join_path(h.as_str(), rest.as_str())),
            Err(e) => Err(e),
        },
    }
}

impl Config {
    /// Expands a leading `~` in the certificate and key paths (the
    /// passphrase is left as it is).  Fails with the home directory's error
    /// when one of the two paths needs it and it is not available.
    pub fn expand_home_paths<E>(self, home: Result<String, E>) -> (res: Result<Config, E>)
        ensures
            match home {
                Ok(h) => res matches Ok(c) && {
                    &&& c.tls.crt@ == expanded_path(self.tls.crt@, h@)
                    &&& c.tls.key@ == expanded_path(self.tls.key@, h@)
                    &&& c.tls.pass@ == self.tls.pass@
                },
                Err(e) => if home_relative_part(self.tls.crt@) is None
                    && home_relative_part(self.tls.key@) is None {
                    res matches Ok(c) && {
                        &&& c.tls.crt@ == self.tls.crt@
                        &&& c.tls.key@ == self.tls.key@
                        &&& c.tls.pass@ == self.tls.pass@
                    }
                } else {
                    res == Err::<Config, E>(e)
                },
            },
    {
        let crt_rest = strip_home_prefix(self.tls.crt.as_str());
        let key_rest = strip_home_prefix(self.tls.key.as_str());
        if crt_rest.is_none() && key_rest.is_none() {
            return Ok(self);
        }
        match home {
            Err(e) => Err(e),
            Ok(h) => {
                let crt = match crt_rest {
                    Some(r) => join_path(h.as_str(), r.as_str()),
                    None => self.tls.crt,
                };
                let key = match key_rest {
                    Some(r) => join_path(h.as_str(), r.as_str()),
                    None => self.tls.key,
                };
                Ok(Config { tls: TLS { crt, key, pass: self.tls.pass } })
            },
        }
    }
}

/// Expanding a path a second time, with the same home directory, changes
/// nothing, provided the home directory is not empty and does not itself
/// start with the component `~`.
pub proof fn expanding_twice_changes_nothing(path: Seq<char>, home: Seq<char>)
    requires
        home.len() > 0,
        !starts_with_home_component(home),
    ensures
        expanded_path(expanded_path(path, home), home) == expanded_path(path, home),
{
    let q = expanded_path(path, home);
    match home_relative_part(path) {
        None => {},
        Some(rest) => {
            if rest.len() > 0 && rest[0] == '/' {
                assert(q == rest);
            } else if home[home.len() - 1] == '/' {
                assert(q == home + rest);
                assert(q[0] == home[0]);
                if home.len() > 1 {
                    assert(q[1] == home[1]);
                }
            } else {
                assert(q == home + seq!['/'] + rest);
                assert(q[0] == home[0]);
                if home.len() > 1 {
                    assert(q[1] == home[1]);
                }
            }
            assert(!starts_with_home_component(q));
        },
    }
}

/// A path `~/r`, with `r` a plain relative path of any length, expands to
/// the home directory followed by `r`, with one `/` between them.
pub proof fn home_paths_expand_under_home(rest: Seq<char>, home: Seq<char>)
    requires
        plain_relative(rest),
    ensures
        expanded_path(seq!['~', '/'] + rest, home) == if home.len() == 0 || home[home.len() - 1]
            == '/' {
            home + rest
        } else {
            home + seq!['/'] + rest
        },
{
    let p = seq!['~', '/'] + rest;
    assert(p.subrange(2, p.len() as int) =~= rest);
    assert(starts_with_home_component(p));
    assert(!rest_is_only_named(p));
    assert(home_relative_part(p) == Some(rest));
}

/// `~` and `~/` expand to the home directory, ending in `/`.
pub proof fn bare_tilde_expands_to_home(home: Seq<char>)
    ensures
        expanded_path(seq!['~'], home) == expanded_path(seq!['~', '/'], home),
        expanded_path(seq!['~'], home) == if home.len() == 0 || home[home.len() - 1] == '/' {
            home
        } else {
            home + seq!['/']
        },
{
    assert(home_relative_part(seq!['~']) == Some(Seq::<char>::empty()));
    assert(home_relative_part(seq!['~', '/']) == Some(Seq::<char>::empty()));
    assert(home + Seq::<char>::empty() =~= home);
    assert(home + seq!['/'] + Seq::<char>::empty() =~= home + seq!['/']);
}

/// A path whose first component is not `~` (it does not start with `~`, or
/// it starts with `~` and a character other than `/`, as in `~user/k`) is
/// left as it is, whatever the home directory.
pub proof fn other_paths_are_not_expanded(path: Seq<char>, home: Seq<char>)
    requires
        path.len() == 0 || path[0] != '~' || (path.len() >= 2 && path[1] != '/'),
    ensures
        expanded_path(path, home) == path,
{
}

} // verus!
