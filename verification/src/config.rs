//! The benchmark's settings.

use vstd::prelude::*;
use crate::text::{digits, push_digits};

verus! {

/// The database access library that runs the workload.
#[derive(Clone, Copy, Debug, PartialEq, Eq)]
pub enum DbLib {
    Tokio,
    Sqlx,
    Diesel,
}

/// The name of a library as `{:?}` prints it.
pub open spec fn lib_name(lib: DbLib) -> Seq<char> {
    match lib {
        DbLib::Tokio => seq!['T', 'o', 'k', 'i', 'o'],
        DbLib::Sqlx => seq!['S', 'q', 'l', 'x'],
        DbLib::Diesel => seq!['D', 'i', 'e', 's', 'e', 'l'],
    }
}

impl DbLib {
    /// The library's name as `{:?}` prints it.
    pub fn debug_name(&self) -> (s: &'static str)
        ensures
            s@ == lib_name(*self),
    {
        match self {
            DbLib::Tokio => {
                proof { reveal_strlit("Tokio"); }
                "Tokio"
            },
            DbLib::Sqlx => {
                proof { reveal_strlit("Sqlx"); }
                "Sqlx"
            },
            DbLib::Diesel => {
                proof { reveal_strlit("Diesel"); }
                "Diesel"
            },
        }
    }
}

/// The settings of a benchmark run.
#[derive(Clone, Debug)]
pub struct Config {
    pub username: String,
    pub password: String,
    pub host: String,
    pub port: u16,
    pub connections: u32,
    pub db: String,
    pub lib: DbLib,
    pub customers: u32,
    pub vendors: u32,
    pub materials: u32,
    pub users: u32,
    pub start_year: u32,
    pub years: u32,
    pub operations: usize,
    pub name: String,
}

/// The name given to a run that has none:
/// `Benchmark {lib:?} with {users} users, {operations} operations, {materials} materials, {years} years`.
pub open spec fn default_name(c: Config) -> Seq<char> {
    "Benchmark "@ + lib_name(c.lib) + " with "@ + digits(c.users as nat) + " users, "@
        + digits(c.operations as nat) + " operations, "@ + digits(c.materials as nat) + " materials, "@
        + digits(c.years as nat) + " years"@
}

impl Config {
    /// The settings as given, with the default name when the name is empty.
    pub fn new(parsed: Config) -> (c: Config)
        ensures
            c.username@ == parsed.username@,
            c.password@ == parsed.password@,
            c.host@ == parsed.host@,
            c.db@ == parsed.db@,
            c.port == parsed.port,
            c.connections == parsed.connections,
            c.lib == parsed.lib,
            c.customers == parsed.customers,
            c.vendors == parsed.vendors,
            c.materials == parsed.materials,
            c.users == parsed.users,
            c.start_year == parsed.start_year,
            c.years == parsed.years,
            c.operations == parsed.operations,
            c.name@ == (if parsed.name@.len() == 0 { default_name(parsed) } else { parsed.name@ }),
    {
        let mut config = parsed;
        if config.name.as_str().is_empty() {
            proof {
                reveal_strlit("Benchmark ");
                reveal_strlit(" with ");
                reveal_strlit(" users, ");
                reveal_strlit(" operations, ");
                reveal_strlit(" materials, ");
                reveal_strlit(" years");
            }
            let mut name = String::from_str("Benchmark ");
            name.append(config.lib.debug_name());
            name.append(" with ");
            push_digits(&mut name, config.users as u64);
            name.append(" users, ");
            push_digits(&mut name, config.operations as u64);
            name.append(" operations, ");
            push_digits(&mut name, config.materials as u64);
            name.append(" materials, ");
            push_digits(&mut name, config.years as u64);
            name.append(" years");
            assert(name@ =~= default_name(parsed));
            config.name = name;
        }
        config
    }
}

} // verus!
