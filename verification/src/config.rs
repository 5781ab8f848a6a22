//! Settings of the client and of the server, and how command-line values
//! override what a settings file holds.

use vstd::prelude::*;
use vstd::string::*;

verus! {

/// The host that the server binds where none is configured.
pub const DEFAULT_HOST: &'static str = "127.0.0.1";

/// The port that the server binds where none is configured.
pub const DEFAULT_PORT: u16 = 8080;

/// The path under which the server answers where none is configured.
pub const DEFAULT_ROOT: &'static str = "/";

/// `current` overridden by `given` where `given` holds a value.
pub open spec fn overridden<T>(current: Option<T>, given: Option<T>) -> Option<T> {
    if given is Some {
        given
    } else {
        current
    }
}

/// The server's settings; each may be absent.
#[derive(Debug)]
pub struct ServerConfig {
    /// Path of the bookmark database.
    pub db: Option<String>,
    /// Host to bind.
    pub host: Option<String>,
    /// Port to bind.
    pub port: Option<u16>,
    /// Path under which the server answers.
    pub root: Option<String>,
}

impl Default for ServerConfig {
    fn default() -> (r: ServerConfig)
        ensures
            r.db is None,
            r.host is None,
            r.port is None,
            r.root is None,
    {
        ServerConfig { db: None, host: None, port: None, root: None }
    }
}

impl ServerConfig {
    /// Replaces the database path where `db` holds one.
    pub fn set_db(&mut self, db: &Option<String>)
        ensures
            *final(self) == (ServerConfig { db: overridden(old(self).db, *db), ..*old(self) }),
    {
        if let Some(value) = db {
            self.db = Some(value.clone());
        }
    }

    /// Replaces the host where `host` holds one.
    pub fn set_host(&mut self, host: &Option<String>)
        ensures
            *final(self) == (ServerConfig { host: overridden(old(self).host, *host), ..*old(self) }),
    {
        if let Some(value) = host {
            self.host = Some(value.clone());
        }
    }

    /// The host to bind: the configured one, else `DEFAULT_HOST`.
    pub fn get_host(&self) -> (r: String)
        ensures
            r@ == (match self.host {
                Some(host) => host@,
                None => DEFAULT_HOST@,
            }),
    {
        if let Some(host) = &self.host {
            host.clone()
        } else {
            DEFAULT_HOST.to_string()
        }
    }

    /// Replaces the port where `port` holds one.
    pub fn set_port(&mut self, port: &Option<u16>)
        ensures
            *final(self) == (ServerConfig { port: overridden(old(self).port, *port), ..*old(self) }),
    {
        if let Some(value) = port {
            self.port = Some(*value);
        }
    }

    /// The port to bind: the configured one, else `DEFAULT_PORT`.
    pub fn get_port(&self) -> (r: u16)
        ensures
            r == (match self.port {
                Some(port) => port,
                None => DEFAULT_PORT,
            }),
    {
        if let Some(port) = self.port {
            port
        } else {
            DEFAULT_PORT
        }
    }

    /// Replaces the root path where `root` holds one.
    pub fn set_root(&mut self, root: &Option<String>)
        ensures
            *final(self) == (ServerConfig { root: overridden(old(self).root, *root), ..*old(self) }),
    {
        if let Some(value) = root {
            self.root = Some(value.clone());
        }
    }

    /// The path under which the server answers: the configured one, else
    /// `DEFAULT_ROOT`.
    pub fn get_root(&self) -> (r: String)
        ensures
            r@ == (match self.root {
                Some(root) => root@,
                None => DEFAULT_ROOT@,
            }),
    {
        if let Some(root) = &self.root {
            root.clone()
        } else {
            DEFAULT_ROOT.to_string()
        }
    }
}

/// The client's settings, with the server's where the file holds them.
#[derive(Debug)]
pub struct Config {
    /// Address of a remote bookmark server.
    pub host: Option<String>,
    /// Path of a local bookmark database.
    pub db: Option<String>,
    /// The server's settings.
    pub server: Option<ServerConfig>,
}

impl Default for Config {
    fn default() -> (r: Config)
        ensures
            r.host is None,
            r.db is None,
            r.server == Some(ServerConfig { db: None, host: None, port: None, root: None }),
    {
        Config { host: None, db: None, server: Some(ServerConfig::default()) }
    }
}

impl Config {
    /// Replaces the server address where `host` holds one.
    pub fn set_host(&mut self, host: &Option<String>)
        ensures
            *final(self) == (Config { host: overridden(old(self).host, *host), ..*old(self) }),
    {
        if let Some(value) = host {
            self.host = Some(value.clone());
        }
    }

    /// Replaces the database path where `db` holds one.
    pub fn set_db(&mut self, db: &Option<String>)
        ensures
            *final(self) == (Config { db: overridden(old(self).db, *db), ..*old(self) }),
    {
        if let Some(value) = db {
            self.db = Some(value.clone());
        }
    }
}

} // verus!
