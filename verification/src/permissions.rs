use vstd::prelude::*;

verus! {

/// The resource classes that the capability table ranges over.
#[derive(Clone, Copy, PartialEq, Eq, Structural, Debug)]
pub enum PermissionClass {
    FileSystemRead,
    FileSystemWrite,
    Network,
    Environment,
    Subprocess,
    SystemInfo,
}

/// A fine-grained grant: one flag per resource class.
#[derive(Clone, Copy, PartialEq, Eq, Structural, Debug)]
pub struct PermissionGrants {
    pub file_system_read: bool,
    pub file_system_write: bool,
    pub network: bool,
    pub environment: bool,
    pub subprocess: bool,
    pub system_info: bool,
}

/// A capability table over resource classes: either every class is
/// allowed, or a per-class grant decides. One PermissionSet is owned
/// exclusively by the host driver for the duration of one engine
/// instance and is immutable after bootstrap.
#[derive(Clone, Copy, PartialEq, Eq, Structural, Debug)]
pub enum PermissionSet {
    AllowAll,
    Granted(PermissionGrants),
}

impl PermissionSet {
    /// Whether this table grants access to the given resource class.
    pub open spec fn spec_allows(self, class: PermissionClass) -> bool {
        match self {
            PermissionSet::AllowAll => true,
            PermissionSet::Granted(g) => match class {
                PermissionClass::FileSystemRead => g.file_system_read,
                PermissionClass::FileSystemWrite => g.file_system_write,
                PermissionClass::Network => g.network,
                PermissionClass::Environment => g.environment,
                PermissionClass::Subprocess => g.subprocess,
                PermissionClass::SystemInfo => g.system_info,
            },
        }
    }

    /// The grant this embedding runs with: every resource class allowed.
    pub fn allow_all() -> (r: PermissionSet)
        ensures
            r == PermissionSet::AllowAll,
            forall|class: PermissionClass| r.spec_allows(class),
    {
        PermissionSet::AllowAll
    }

    /// Looks the given resource class up in the table.
    pub fn allows(&self, class: PermissionClass) -> (r: bool)
        ensures
            r == self.spec_allows(class),
    {
        match self {
            PermissionSet::AllowAll => true,
            PermissionSet::Granted(g) => match class {
                PermissionClass::FileSystemRead => g.file_system_read,
                PermissionClass::FileSystemWrite => g.file_system_write,
                PermissionClass::Network => g.network,
                PermissionClass::Environment => g.environment,
                PermissionClass::Subprocess => g.subprocess,
                PermissionClass::SystemInfo => g.system_info,
            },
        }
    }
}

} // verus!
