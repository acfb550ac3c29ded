//! The core's configuration.

use vstd::prelude::*;
use crate::shared::HandlerType;

verus! {

/// Where the core keeps its registry by default.
pub const DEFAULT_CORE_DB_PATH: &'static str = "./run/core.sqlite";
/// Where the core keeps its private key by default.
pub const DEFAULT_SERVER_KEY_PATH: &'static str = "./run/private.pem";

/// The configuration of the core: which interfaces run, whether the configuration is
/// kept on disk, and where the registry is.
#[derive(Debug)]
pub struct CoreConfig {
    pub active_handlers: Vec<HandlerType>,
    pub persistent_config: bool,
    pub core_db_path: String,
}

impl Default for CoreConfig {
    /// Every interface, kept on disk, with the registry at its default path.
    fn default() -> (r: Self)
        ensures
            r.active_handlers@ == seq![HandlerType::All],
            r.persistent_config,
            r.core_db_path@ == DEFAULT_CORE_DB_PATH@,
    {
        let r = CoreConfig {
            active_handlers: vec![HandlerType::All],
            persistent_config: true,
            core_db_path: String::from_str(DEFAULT_CORE_DB_PATH),
        };
        proof {
            assert(r.active_handlers@ =~= seq![HandlerType::All]);
        }
        r
    }
}

} // verus!
