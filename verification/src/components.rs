//! The explicit component registry.
//!
//! The services are wired once at startup and then shared; the registry
//! is an explicit value handed to whoever needs it, never a process-wide
//! static, so tests can build isolated instances.  Registration is
//! once-only: a second attempt fails and leaves the first wiring in
//! place.

use std::sync::Arc;

use vstd::prelude::*;

use crate::data::{Data, UserRepo};
use crate::error::Error;

verus! {

/// The wired service components of one process.
pub struct Modules {
    pub data: Arc<Data>,
    pub repo: Arc<UserRepo>,
}

/// Where the wired components live between startup and shutdown.
pub struct Registry {
    modules: Option<Arc<Modules>>,
}

impl Registry {
    pub closed spec fn spec_modules(&self) -> Option<Arc<Modules>> {
        self.modules
    }

    pub open spec fn is_initialized(&self) -> bool {
        self.spec_modules() is Some
    }

    /// An empty registry: nothing wired yet.
    pub fn new() -> (r: Registry)
        ensures
            !r.is_initialized(),
    {
        Registry { modules: None }
    }
}

/// Wire the components over the given data layer and store them; fails
/// without touching anything if components were already wired.
pub fn register_components(reg: &mut Registry, data: Arc<Data>) -> (r: Result<Arc<Modules>, Error>)
    ensures
        old(reg).is_initialized() ==> {
            &&& *final(reg) == *old(reg)
            &&& r matches Err(e) && e matches Error::ServerError(m) && m@
                == "component init error"@
        },
        !old(reg).is_initialized() ==> {
            &&& final(reg).is_initialized()
            &&& r matches Ok(m) && final(reg).spec_modules() == Some(m) && m.data == data
                && m.repo.data == data
        },
{
    if reg.modules.is_some() {
        return Err(Error::ServerError(String::from_str("component init error")));
    }
    let repo = UserRepo::repo(data.clone());
    let modules = Arc::new(Modules { data, repo });
    reg.modules = Some(modules.clone());
    Ok(modules)
}

/// The wired components, or an error when none were registered yet.
pub fn get_service_factory(reg: &Registry) -> (r: Result<&Modules, Error>)
    ensures
        reg.is_initialized() ==> (r matches Ok(m) && reg.spec_modules()->Some_0 == *m),
        !reg.is_initialized() ==> (r matches Err(e) && e matches Error::ServerError(msg) && msg@
            == "components not init"@),
{
    match &reg.modules {
        Some(m) => Ok(&**m),
        None => Err(Error::ServerError(String::from_str("components not init"))),
    }
}

} // verus!
