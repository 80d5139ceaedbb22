//! Project configuration and the source it is resolved from.
//!
//! A configuration carries the project's name and version as ASCII byte
//! strings and the quiet-boot switch.  Once resolved for use, both strings
//! must be non-empty; an empty one is an unrecoverable startup defect.

use vstd::prelude::*;
use vstd::slice::slice_to_vec;
use vstd::string::StringSliceAdditionalSpecFns;

verus! {

/// The abstract value of a configuration.
#[verifier::ext_equal]
pub ghost struct ConfigView {
    /// The project name's bytes.
    pub name: Seq<u8>,
    /// The project version's bytes.
    pub version: Seq<u8>,
    /// Whether stage-success reports are suppressed.
    pub quiet: bool,
}

impl ConfigView {
    /// A configuration is valid when both strings are non-empty.
    pub open spec fn valid(self) -> bool {
        self.name.len() > 0 && self.version.len() > 0
    }
}

/// A project configuration.
#[derive(Debug)]
pub struct Config {
    /// The project's name.
    pub project_name: Vec<u8>,
    /// The project's version.
    pub project_version: Vec<u8>,
    /// Whether stage-success reports are suppressed during boot.
    pub quiet_boot: bool,
}

impl View for Config {
    type V = ConfigView;

    open spec fn view(&self) -> ConfigView {
        ConfigView {
            name: self.project_name@,
            version: self.project_version@,
            quiet: self.quiet_boot,
        }
    }
}

impl Config {
    /// Builds a configuration from text values.
    pub fn new(project_name: &str, project_version: &str, quiet_boot: bool) -> (r: Config)
        ensures
            r@.name == project_name.spec_bytes(),
            r@.version == project_version.spec_bytes(),
            r@.quiet == quiet_boot,
    {
        Config {
            project_name: slice_to_vec(project_name.as_bytes()),
            project_version: slice_to_vec(project_version.as_bytes()),
            quiet_boot,
        }
    }

    /// The placeholder configuration: everything empty, nothing suppressed.
    /// It is not valid; resolution must replace it.
    pub fn cnst() -> (r: Config)
        ensures
            r@.name.len() == 0,
            r@.version.len() == 0,
            r@.quiet == false,
    {
        Config { project_name: Vec::new(), project_version: Vec::new(), quiet_boot: false }
    }

    /// Returns a configuration with the same value.
    pub fn duplicate(&self) -> (r: Config)
        ensures
            r@ == self@,
    {
        let r = Config {
            project_name: slice_to_vec(self.project_name.as_slice()),
            project_version: slice_to_vec(self.project_version.as_slice()),
            quiet_boot: self.quiet_boot,
        };
        proof {
            assert(r@ =~= self@);
        }
        r
    }

    /// Whether both strings are non-empty.
    pub fn is_valid(&self) -> (r: bool)
        ensures
            r == self@.valid(),
    {
        self.project_name.len() > 0 && self.project_version.len() > 0
    }
}

/// Where a configuration comes from: the default file-backed source that the
/// build system fills in, or a caller-supplied value used as it stands.
#[derive(Debug)]
pub enum ConfigType {
    /// Use the default file-backed configuration.
    File,
    /// Use this caller-supplied configuration.
    Custom(Config),
}

} // verus!
