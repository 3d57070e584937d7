//! Where the store is, and the address text that a client connects with.

use vstd::prelude::*;

verus! {

/// What is needed to reach the store. An empty password, port or database
/// means that the part is left out of the address.
pub struct ConnectionSettings {
    pub username: String,
    pub password: String,
    pub host: String,
    pub port: String,
    pub database: String,
}

/// `part` behind its separator, or nothing where `part` is empty.
pub open spec fn prefixed(separator: Seq<char>, part: Seq<char>) -> Seq<char> {
    if part.len() == 0 {
        part
    } else {
        separator + part
    }
}

/// The address of a store: scheme, user, optional password, host, optional
/// port and optional database.
pub open spec fn address(
    username: Seq<char>,
    password: Seq<char>,
    host: Seq<char>,
    port: Seq<char>,
    database: Seq<char>,
) -> Seq<char> {
    "postgres://"@ + username + prefixed(":"@, password) + "@"@ + host + prefixed(":"@, port)
        + prefixed("/"@, database)
}

/// Appends `part` behind `separator`, or nothing where `part` is empty.
pub fn push_prefixed(out: &mut String, separator: &str, part: &str)
    ensures
        final(out)@ == old(out)@ + prefixed(separator@, part@),
{
    if !part.is_empty() {
        out.append(separator);
        out.append(part);
        assert(out@ =~= old(out)@ + prefixed(separator@, part@));
    } else {
        assert(out@ =~= old(out)@ + prefixed(separator@, part@));
    }
}

impl ConnectionSettings {
    /// The address that these settings describe.
    pub open spec fn address(&self) -> Seq<char> {
        address(self.username@, self.password@, self.host@, self.port@, self.database@)
    }

    /// The address text handed to the client when it connects.
    pub fn connect_string(&self) -> (s: String)
        ensures
            s@ == self.address(),
    {
        let mut s = String::from_str("postgres://");
        s.append(self.username.as_str());
        push_prefixed(&mut s, ":", self.password.as_str());
        s.append("@");
        s.append(self.host.as_str());
        push_prefixed(&mut s, ":", self.port.as_str());
        push_prefixed(&mut s, "/", self.database.as_str());
        s
    }
}

} // verus!
