//! A bookmark manager driven through a dmenu-style launcher.

pub mod bookmark;
pub mod bookmark_proxy;
pub mod config;
pub mod models;
pub mod remote_proxy;
pub mod rofi;
pub mod rofi_interface;
pub mod server;
pub mod text;

use vstd::prelude::*;
use vstd::string::*;
use crate::config::{overridden, Config};

verus! {

/// The client's command line.
#[derive(Debug)]
pub struct Cli {
    /// Address of a remote bookmark server.
    pub host: Option<String>,
    /// Path of a local bookmark database.
    pub db: Option<String>,
    /// What to do.
    pub command: Commands,
}

/// What the client can be asked to do.
#[derive(Debug)]
pub enum Commands {
    /// Pick a bookmark in the launcher.
    Rofi,
    /// Add a bookmark.
    Add {
        /// The address to bookmark.
        url: String,
        /// What to note about it.
        description: String,
        /// The tags to attach.
        tags: Vec<String>,
    },
    /// List all bookmarks.
    List,
    /// Delete the bookmark with this key.
    Delete {
        /// The key.
        index: i32,
    },
    /// Edit the bookmark with this key.
    Edit {
        /// The key.
        index: i32,
    },
}

/// Which bookmark store to use.
#[derive(Debug)]
pub enum ProxyChoice {
    /// The database at this path.
    Local(String),
    /// The server at this address.
    Remote(String),
}

/// The client's settings: what the settings file holds, overridden by what
/// the command line gives.
pub fn client_config(config: Config, cli: &Cli) -> (r: Config)
    ensures
        r == (Config {
            host: overridden(config.host, cli.host),
            db: overridden(config.db, cli.db),
            ..config
        }),
{
    let mut config = config;
    config.set_host(&cli.host);
    config.set_db(&cli.db);
    config
}

/// The store to use: the local database where a path is given, else the
/// server where an address is given. With neither there is none.
pub fn get_proxy(host: Option<String>, db: Option<String>) -> (r: Result<ProxyChoice, String>)
    ensures
        db matches Some(path) ==> r == Ok::<ProxyChoice, String>(ProxyChoice::Local(path)),
        db is None ==> (host matches Some(address) ==> r == Ok::<ProxyChoice, String>(
            ProxyChoice::Remote(address),
        )),
        db is None && host is None ==> (r matches Err(why) && why@
            == "You must provide either a --host or --db flag"@),
{
    if let Some(db) = db {
        Ok(ProxyChoice::Local(db))
    } else if let Some(host) = host {
        Ok(ProxyChoice::Remote(host))
    } else {
        Err("You must provide either a --host or --db flag".to_string())
    }
}

} // verus!
