//! The command line of a text search: what to look for, and where.
use vstd::prelude::*;

verus! {

/// What a search was asked to do.
pub struct Config {
    pub query: String,
    pub file_path: String,
}

impl Config {
    /// Reads the query and the file's path from the arguments that follow the
    /// program's name.
    pub fn build(args: &[String]) -> (r: Result<Config, &'static str>)
        ensures
            match r {
                Ok(config) => args@.len() >= 3 && config.query == args@[1] && config.file_path
                    == args@[2],
                Err(message) => args@.len() < 3 && message@ == "not enough arguments"@,
            },
    {
        if args.len() < 3 {
            return Err("not enough arguments");
        }
        let query = args[1].clone();
        let file_path = args[2].clone();
        Ok(Config { query, file_path })
    }
}

} // verus!
