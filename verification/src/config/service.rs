//! The configuration service: where configuration lives and what is written.
use vstd::prelude::*;

use crate::text::{chars_of, trim, trim_exec};

verus! {

broadcast use vstd::string::group_string_axioms;

/// File name of the application configuration, in the application data directory.
pub const APP_CONFIG_FILENAME: &'static str = "app.toml";

/// Directory of the project configuration, in the project.
pub const PROJECT_CONFIG_DIR: &'static str = ".devflow";

/// File name of the project configuration, in its directory.
pub const PROJECT_CONFIG_FILENAME: &'static str = "config.toml";

/// File name of the project memory, at the project root.
pub const AGENTS_MD_FILENAME: &'static str = "AGENTS.md";

/// Reads and writes the configuration of the application and of projects.
#[derive(Debug, Clone)]
pub struct ConfigService {
    app_data_dir: String,
}

impl ConfigService {
    /// The application data directory of the service.
    pub closed spec fn data_dir(&self) -> Seq<char> {
        self.app_data_dir@
    }

    /// A service that keeps the application configuration in `app_data_dir`.
    pub fn with_app_data_dir(app_data_dir: String) -> (r: Self)
        ensures
            r.data_dir() == app_data_dir@,
    {
        ConfigService { app_data_dir }
    }

    /// The application data directory.
    pub fn app_data_dir(&self) -> (r: &str)
        ensures
            r@ == self.data_dir(),
    {
        self.app_data_dir.as_str()
    }

    /// What saving the project memory writes: the content, unless it is missing or
    /// only whitespace, in which case nothing is written.
    pub fn agents_md_to_save(content: Option<String>) -> (r: Option<String>)
        ensures
            match content {
                Some(c) => if trim(c@).len() == 0 {
                    r is None
                } else {
                    r == Some(c)
                },
                None => r is None,
            },
    {
        match content {
            Some(c) => {
                let cv = chars_of(c.as_str());
                let t = trim_exec(cv.as_slice());
                if t.len() == 0 {
                    None
                } else {
                    Some(c)
                }
            },
            None => None,
        }
    }
}

} // verus!
