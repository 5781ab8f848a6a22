//! The bookmark server's settings and routes.

use vstd::prelude::*;
use vstd::string::*;
use crate::config::{overridden, Config, ServerConfig, DEFAULT_HOST, DEFAULT_PORT, DEFAULT_ROOT};
use crate::remote_proxy::Endpoints;
use crate::text::{decimal, decimal_string};

verus! {

/// The server's command line.
#[derive(Debug)]
pub struct Cli {
    /// Path of the bookmark database.
    pub db: Option<String>,
    /// Host to bind.
    pub host: Option<String>,
    /// Port to bind.
    pub port: Option<u16>,
    /// Path under which the server answers.
    pub root: Option<String>,
}

/// The body of a request to add a bookmark.
#[derive(Debug)]
pub struct AddParams {
    /// The address to bookmark.
    pub url: String,
    /// What to note about it.
    pub description: String,
}

/// The body of a request to delete a bookmark.
#[derive(Debug, Clone, Copy)]
pub struct DeleteParams {
    /// The key of the bookmark.
    pub id: i32,
}

/// The settings that the server runs with: what the settings file holds
/// for it, overridden by what the command line gives.
pub fn server_config(config: Config, cli: &Cli) -> (r: ServerConfig)
    ensures
        r == ({
            let base = match config.server {
                Some(server) => server,
                None => ServerConfig { db: None, host: None, port: None, root: None },
            };
            ServerConfig {
                db: overridden(base.db, cli.db),
                host: overridden(base.host, cli.host),
                port: overridden(base.port, cli.port),
                root: overridden(base.root, cli.root),
            }
        }),
{
    let mut server_config = if let Some(server_config) = config.server {
        server_config
    } else {
        ServerConfig::default()
    };
    server_config.set_db(&cli.db);
    server_config.set_host(&cli.host);
    server_config.set_port(&cli.port);
    server_config.set_root(&cli.root);
    server_config
}

/// The line that announces the server: host, port and root path.
pub fn banner(config: &ServerConfig) -> (r: String)
    ensures
        r@ == "Running server "@ + (match config.host {
            Some(host) => host@,
            None => DEFAULT_HOST@,
        }) + ":"@ + decimal(
            (match config.port {
                Some(port) => port,
                None => DEFAULT_PORT,
            }) as nat,
        ) + (match config.root {
            Some(root) => root@,
            None => DEFAULT_ROOT@,
        }),
{
    let mut out = "Running server ".to_string();
    let host = config.get_host();
    out.append(host.as_str());
    out.append(":");
    let port = decimal_string(config.get_port() as u64);
    out.append(port.as_str());
    let root = config.get_root();
    out.append(root.as_str());
    out
}

/// What the server needs to start.
#[derive(Debug)]
pub struct ServerSettings {
    /// Path of the bookmark database.
    pub db: String,
    /// Host to bind.
    pub host: String,
    /// Port to bind.
    pub port: u16,
    /// Path under which the server answers.
    pub root: String,
}

/// The settings to start with: the configured ones, with the defaults for
/// host, port and root. Without a database path there are none.
pub fn server_settings(config: ServerConfig) -> (r: Result<ServerSettings, String>)
    ensures
        config.db is None ==> (r matches Err(why) && why@ == "Expected db path"@),
        config.db matches Some(db) ==> (r matches Ok(settings) && settings.db == db
            && settings.host@ == (match config.host {
            Some(host) => host@,
            None => DEFAULT_HOST@,
        }) && settings.port == (match config.port {
            Some(port) => port,
            None => DEFAULT_PORT,
        }) && settings.root@ == (match config.root {
            Some(root) => root@,
            None => DEFAULT_ROOT@,
        })),
{
    let host = config.get_host();
    let port = config.get_port();
    let root = config.get_root();
    match config.db {
        Some(db) => Ok(ServerSettings { db, host, port, root }),
        None => Err("Expected db path".to_string()),
    }
}

/// Whether `root` is the top path, `/`.
pub fn is_top(root: &str) -> (r: bool)
    ensures
        r == (root@ == "/"@),
{
    proof {
        reveal_strlit("/");
    }
    let r = root.unicode_len() == 1 && root.get_char(0) == '/';
    assert(r ==> root@ =~= "/"@);
    r
}

/// The paths that the server routes: directly below the top where `root`
/// is `/`, else below `root`.
pub fn routes(root: &str) -> (r: Endpoints)
    ensures
        root@ == "/"@ ==> r.is_under(Seq::empty()),
        root@ != "/"@ ==> r.is_under(root@),
{
    if is_top(root) {
        let r = Endpoints::under("");
        proof {
            reveal_strlit("");
            assert(""@ =~= Seq::<char>::empty());
        }
        r
    } else {
        Endpoints::under(root)
    }
}

} // verus!
