//! The configuration-stage interface of a stream module.

use vstd::prelude::*;

use crate::base::{Merge, MergeConfigError, NGX_CONF_ERROR, NGX_CONF_OK, NGX_OK};
use crate::stream::conf::{NgxConf, NgxModule, NgxModules};

verus! {

/// The address a configuration callback returns for the outcome of a merge:
/// `NGX_CONF_OK` (null) when it succeeded, `NGX_CONF_ERROR` when it failed.
pub open spec fn merge_status_spec(result: Result<(), MergeConfigError>) -> usize {
    match result {
        Ok(_) => NGX_CONF_OK,
        Err(_) => NGX_CONF_ERROR,
    }
}

/// Turns the outcome of merging a server configuration into the value that
/// the `merge_srv_conf` callback hands back to NGINX.
pub fn merge_status(result: Result<(), MergeConfigError>) -> (r: usize)
    ensures
        r == merge_status_spec(result),
        r == NGX_CONF_OK <==> result is Ok,
{
    match result {
        Ok(_) => NGX_CONF_OK,
        Err(_) => NGX_CONF_ERROR,
    }
}

/// The NGINX configuration-stage interface of a stream module: how to find
/// the module among the loaded modules, and the callbacks that create, check
/// and merge its configuration.
pub trait StreamModule {
    /// The indices of this module among `modules`.
    spec fn module_spec(modules: NgxModules) -> NgxModule;

    /// Returns the indices that NGINX assigned to this module.
    fn module(modules: &NgxModules) -> (m: NgxModule)
        ensures
            m == Self::module_spec(*modules),
    ;

    /// Runs before the configuration is parsed; by default it succeeds with `NGX_OK`.
    fn preconfiguration(_cf: &mut NgxConf) -> (r: isize)
        default_ensures
            r == NGX_OK,
            *final(_cf) == *old(_cf),
    {
        NGX_OK
    }

    /// Runs after the configuration is parsed; by default it succeeds with `NGX_OK`.
    fn postconfiguration(_cf: &mut NgxConf) -> (r: isize)
        default_ensures
            r == NGX_OK,
            *final(_cf) == *old(_cf),
    {
        NGX_OK
    }

    /// Completes the main configuration; by default it leaves it as it is and
    /// returns `NGX_CONF_OK`.
    fn init_main_conf(_cf: &mut NgxConf) -> (r: usize)
        default_ensures
            r == NGX_CONF_OK,
            *final(_cf) == *old(_cf),
    {
        NGX_CONF_OK
    }

    /// Merges a server configuration `conf` with `prev`, the one of the
    /// enclosing level, by one call of `conf.merge(prev)`, and returns
    /// `NGX_CONF_OK` when that merge succeeded, `NGX_CONF_ERROR` when it failed.
    fn merge_srv_conf<C: Merge>(_cf: &mut NgxConf, prev: &C, conf: &mut C) -> (r: usize)
        ensures
            r == NGX_CONF_OK || r == NGX_CONF_ERROR,
            *final(_cf) == *old(_cf),
            exists|m: Result<(), MergeConfigError>|
                #[trigger] C::merge_spec(*old(conf), *prev, *final(conf), m) && r
                    == merge_status_spec(m),
    {
        let result = conf.merge(prev);
        let ghost outcome = result;
        let r = merge_status(result);
        assert(C::merge_spec(*old(conf), *prev, *conf, outcome));
        r
    }
}

} // verus!
