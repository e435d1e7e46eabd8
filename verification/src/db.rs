//! A handle on a Redis server, addressed by a `redis://` URL built from its parts.
use vstd::prelude::*;
use crate::error::{Error, Result};
use crate::text::{chars_of, decimal, push_decimal, push_str, string_from_chars};

verus! {

/// The outcome of opening a client.
pub type OpenResult = core::result::Result<redis::Client, String>;

/// How the server is reached.
#[derive(Debug, Clone, Copy, PartialEq, Eq, Structural)]
pub enum Proto {
    Url,
    Unix,
}

impl Proto {
    /// The name shown for the protocol.
    pub fn as_str(&self) -> (r: &'static str)
        ensures
            r@ == (match self {
                Proto::Unix => "unix socket"@,
                Proto::Url => "redis"@,
            }),
    {
        match self {
            Proto::Unix => "unix socket",
            Proto::Url => "redis",
        }
    }
}

#[verifier::external_type_specification]
#[verifier::external_body]
pub struct ExRedisClient(redis::Client);

/// What `redis::Client::open` makes of a URL: success, or the text of its error.
pub uninterp spec fn redis_open_result(url: Seq<char>) -> core::result::Result<(), Seq<char>>;

/// `redis::Client::open` on a URL string. It only parses the URL (no
/// connection is made); claims that success and the error text are those
/// that `redis_open_result` names.
#[verifier::external_body]
fn redis_open(url: &str) -> (r: OpenResult)
    ensures
        r is Ok <==> redis_open_result(url@) is Ok,
        r matches Err(e) ==> redis_open_result(url@) matches Err(t) && t == e@,
{
    redis::Client::open(url).map_err(|e| e.to_string())
}

/// A Redis server handle.
pub struct Db {
    pub endpoint: String,
    pub proto: Proto,
    pub client: redis::Client,
}

/// The URL of a server: `redis://`, then `user:password@` when credentials
/// are given, the host, `:port` and `/db` when given.
pub open spec fn redis_url(auth: Option<(Seq<char>, Seq<char>)>, path: Seq<char>, port: Option<u32>, db: Option<u8>) -> Seq<char> {
    "redis://"@ + (match auth {
        Some((u, p)) => u + ":"@ + p + "@"@,
        None => Seq::empty(),
    }) + path + (match port {
        Some(n) => ":"@ + decimal(n as nat),
        None => Seq::empty(),
    }) + (match db {
        Some(d) => "/"@ + decimal(d as nat),
        None => Seq::empty(),
    })
}

/// The URL of a server from its parts.
pub fn redis_endpoint(auth: Option<(&str, &str)>, path: &str, port: Option<u32>, db: Option<u8>) -> (r: String)
    ensures
        r@ == redis_url(
            match auth {
                Some((u, p)) => Some((u@, p@)),
                None => None,
            },
            path@,
            port,
            db,
        ),
{
    let mut v: Vec<char> = Vec::new();
    push_str(&mut v, "redis://");
    let ghost a = v@;
    match auth {
        Some((user, passwd)) => {
            push_str(&mut v, user);
            push_str(&mut v, ":");
            push_str(&mut v, passwd);
            push_str(&mut v, "@");
        },
        None => {},
    }
    let ghost b = v@;
    push_str(&mut v, path);
    let ghost c = v@;
    match port {
        Some(n) => {
            push_str(&mut v, ":");
            push_decimal(&mut v, n as u128);
        },
        None => {},
    }
    let ghost d = v@;
    match db {
        Some(x) => {
            push_str(&mut v, "/");
            push_decimal(&mut v, x as u128);
        },
        None => {},
    }
    assert(v@ == redis_url(
        match auth {
            Some((u, p)) => Some((u@, p@)),
            None => None,
        },
        path@,
        port,
        db,
    ));
    string_from_chars(&v)
}

impl Db {
    /// A handle on the server at the given parts of a URL (the protocol
    /// defaults to a URL; Unix sockets are not supported). No connection is
    /// made yet.
    pub fn new(proto: Option<Proto>, auth: Option<(&str, &str)>, path: &str, port: Option<u32>, db: Option<u8>) -> (r: Result<Db>)
        ensures
            proto == Some(Proto::Unix) ==> (r matches Err(Error::NotSupport(m)) && m@
                == "Unix socket is not supported currently"@),
            proto != Some(Proto::Unix) ==> {
                let url = redis_url(
                    match auth {
                        Some((u, p)) => Some((u@, p@)),
                        None => None,
                    },
                    path@,
                    port,
                    db,
                );
                match redis_open_result(url) {
                    Ok(_) => (r matches Ok(d) && d.endpoint@ == url && d.proto == Proto::Url),
                    Err(t) => (r matches Err(Error::Unknown(m)) && m@ == t),
                }
            },
    {
        let proto = match proto {
            Some(p) => p,
            None => Proto::Url,
        };
        match proto {
            Proto::Unix => {
                let m = chars_of("Unix socket is not supported currently");
                Err(Error::NotSupport(string_from_chars(&m)))
            },
            Proto::Url => {
                let endpoint = redis_endpoint(auth, path, port, db);
                match redis_open(endpoint.as_str()) {
                    Ok(client) => Ok(Db { proto, client, endpoint }),
                    Err(e) => Err(Error::Unknown(e)),
                }
            },
        }
    }
}

} // verus!
