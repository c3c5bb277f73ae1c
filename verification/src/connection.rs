//! How the databases are reached: Oracle as the environment says, with defaults,
//! and the others at their fixed places.
use vstd::prelude::*;
use vstd::string::*;

use crate::text::{chars_of, integer_value, parse_integer};

verus! {

/// How a target is reached.
#[derive(Debug)]
pub struct ConnectionInfo {
    pub username: String,
    pub password: String,
    pub host: String,
    pub port: u16,
    pub service_name: String,
}

/// The environment's settings for Oracle, those that are given.
#[derive(Debug)]
pub struct Environment {
    pub host: Option<String>,
    pub port: Option<String>,
    pub service_name: Option<String>,
    pub service: Option<String>,
    pub username: Option<String>,
    pub password: Option<String>,
}

/// A family of databases.
#[derive(Clone, Copy, Debug, PartialEq, Eq, Structural)]
pub enum Backend {
    Oracle,
    MySql,
    MariaDb,
}

/// A setting, or its default where it is not given.
pub open spec fn setting(given: Option<String>, default: Seq<char>) -> Seq<char> {
    match given {
        Some(text) => text@,
        None => default,
    }
}

fn setting_or(given: &Option<String>, default: &str) -> (r: String)
    ensures
        r@ == setting(*given, default@),
{
    match given {
        Some(text) => text.clone(),
        None => default.to_owned(),
    }
}

/// The port that a text spells: digits, with a plus sign before them or none,
/// that come to no more than a port can be.
pub open spec fn port_value(s: Seq<char>) -> Option<int> {
    if s.len() > 0 && s[0] == '-' {
        None
    } else {
        match integer_value(s) {
            Some(n) => if 0 <= n <= u16::MAX { Some(n) } else { None },
            None => None,
        }
    }
}

fn parse_port(s: &str) -> (r: Option<u16>)
    ensures
        match r {
            Some(port) => port_value(s@) == Some(port as int),
            None => port_value(s@) is None,
        },
{
    let x = chars_of(s);
    if x.len() > 0 && x[0] == '-' {
        return None;
    }
    match parse_integer(s) {
        Ok(n) => if 0 <= n && n <= 65535 {
            Some(n as u16)
        } else {
            None
        },
        Err(_) => None,
    }
}

pub open spec fn oracle_port(given: Option<String>) -> int {
    match given {
        Some(text) => match port_value(text@) {
            Some(port) => port,
            None => 1521,
        },
        None => 1521,
    }
}

/// Whether a target is reached as the environment says. An Oracle service may be
/// given under either name, the longer one first.
pub open spec fn reaches(info: ConnectionInfo, backend: Backend, env: Environment) -> bool {
    match backend {
        Backend::Oracle => {
            &&& info.username@ == setting(env.username, "system"@)
            &&& info.password@ == setting(env.password, "password"@)
            &&& info.host@ == setting(env.host, "127.0.0.1"@)
            &&& info.port == oracle_port(env.port)
            &&& info.service_name@ == setting(env.service_name, setting(env.service, "FREE"@))
        },
        Backend::MySql => {
            &&& info.username@ == "root"@
            &&& info.password@ == "spacequery"@
            &&& info.host@ == "127.0.0.1"@
            &&& info.port == 3307
            &&& info.service_name@ == "query_tool_mysql8"@
        },
        Backend::MariaDb => {
            &&& info.username@ == "root"@
            &&& info.password@ == "password"@
            &&& info.host@ == "127.0.0.1"@
            &&& info.port == 3306
            &&& info.service_name@ == "query_tool_test"@
        },
    }
}

/// How a target of a family is reached.
pub fn connection_info(backend: Backend, env: &Environment) -> (r: ConnectionInfo)
    ensures
        reaches(r, backend, *env),
{
    match backend {
        Backend::Oracle => {
            let service = setting_or(&env.service, "FREE");
            let port: u16 = match &env.port {
                Some(text) => match parse_port(text.as_str()) {
                    Some(port) => port,
                    None => 1521,
                },
                None => 1521,
            };
            ConnectionInfo {
                username: setting_or(&env.username, "system"),
                password: setting_or(&env.password, "password"),
                host: setting_or(&env.host, "127.0.0.1"),
                port,
                service_name: setting_or(&env.service_name, service.as_str()),
            }
        },
        Backend::MySql => ConnectionInfo {
            username: "root".to_owned(),
            password: "spacequery".to_owned(),
            host: "127.0.0.1".to_owned(),
            port: 3307,
            service_name: "query_tool_mysql8".to_owned(),
        },
        Backend::MariaDb => ConnectionInfo {
            username: "root".to_owned(),
            password: "password".to_owned(),
            host: "127.0.0.1".to_owned(),
            port: 3306,
            service_name: "query_tool_test".to_owned(),
        },
    }
}

} // verus!
