//! The path and name value types of the workspace: simple immutable
//! values with path-building logic, modelled as text.
//!
//! Every constructor pins the exact text of the path it builds, so the
//! layout of the workspace directory tree is part of the contracts.

use vstd::prelude::*;
use vstd::string::StringExecFns;

verus! {

/// A name error; zone and snapshot names are not validated yet, so no
/// constructor currently produces one.
#[derive(Clone, Copy, Debug, PartialEq, Eq, Structural)]
pub enum NameError {
    Invalid,
}

/// Path to the user's work directory. This is the target path of the
/// overlay mount.
#[derive(Debug, Clone)]
pub struct UserWorkDir {
    path: String,
}

/// Path to the mzr directory - typically something like
/// `.../PROJECT.mzr`, a sibling of `.../PROJECT`.
#[derive(Debug, Clone)]
pub struct MzrDir {
    path: String,
}

/// Name of a zone.
#[derive(Debug, Clone)]
pub struct ZoneName {
    name: String,
}

/// Name of a snapshot.
#[derive(Debug, Clone)]
pub struct SnapName {
    name: String,
}

/// Path to the zone directory within the mzr directory - typically
/// something like `.../PROJECT.mzr/zone/ZONE`.
#[derive(Debug, Clone)]
pub struct ZoneDir {
    path: String,
}

/// Path to the zone info file - typically something like
/// `.../PROJECT.mzr/zone/ZONE/info.json`.
#[derive(Debug, Clone)]
pub struct ZoneInfoFile {
    path: String,
}

/// Path to a snapshot directory - typically something like
/// `.../PROJECT.mzr/snap/SNAP`.
#[derive(Debug, Clone)]
pub struct SnapDir {
    path: String,
}

/// Path to the zone changes directory - typically something like
/// `.../PROJECT.mzr/zone/ZONE/changes`. This is used as the upper dir of
/// the overlay mount, and so changes that overlay the snapshot are stored
/// here, hence the name `changes`.
#[derive(Debug, Clone)]
pub struct ChangesDir {
    path: String,
}

/// Path to the overlay work directory. This must be in the same
/// filesystem as the associated `ChangesDir`, because it is used to
/// prepare files before putting them in the upper dir.
#[derive(Debug, Clone)]
pub struct OvfsWorkDir {
    path: String,
}

/// Path to the daemon pid-file, which stores the process id of the mzr
/// daemon. It is typically something like `.../PROJECT.mzr/daemon.pid`.
#[derive(Debug, Clone)]
pub struct DaemonPidFile {
    path: String,
}

impl View for UserWorkDir {
    type V = Seq<char>;

    closed spec fn view(&self) -> Seq<char> {
        self.path@
    }
}

impl UserWorkDir {
    /// Wrap the user's work directory path.
    pub fn new(work_dir: &String) -> (d: Self)
        ensures
            d@ == work_dir@,
    {
        UserWorkDir { path: work_dir.clone() }
    }

    /// The path as a command-line argument.
    pub fn to_arg(&self) -> (s: &str)
        ensures
            s@ == self@,
    {
        self.path.as_str()
    }
}

impl View for MzrDir {
    type V = Seq<char>;

    closed spec fn view(&self) -> Seq<char> {
        self.path@
    }
}

impl MzrDir {
    /// The mzr directory sits beside the work directory, under the work
    /// directory's name with `.mzr` appended.
    pub fn new(work_dir: &UserWorkDir) -> (d: Self)
        ensures
            d@ == work_dir@ + ".mzr"@,
    {
        let mut path = work_dir.to_arg().to_owned();
        path.append(".mzr");
        MzrDir { path }
    }

    /// The path as text.
    pub fn as_str(&self) -> (s: &str)
        ensures
            s@ == self@,
    {
        self.path.as_str()
    }
}

impl View for ZoneName {
    type V = Seq<char>;

    closed spec fn view(&self) -> Seq<char> {
        self.name@
    }
}

impl ZoneName {
    /// Wrap a zone name. Validation is not specified yet, so every name
    /// is accepted.
    pub fn new(name: String) -> (r: Result<Self, NameError>)
        ensures
            r matches Ok(z) && z@ == name@,
    {
        Ok(ZoneName { name })
    }

    /// The name as text.
    pub fn as_str(&self) -> (s: &str)
        ensures
            s@ == self@,
    {
        self.name.as_str()
    }
}

impl core::str::FromStr for ZoneName {
    type Err = NameError;

    fn from_str(name: &str) -> Result<Self, Self::Err> {
        ZoneName::new(name.to_owned())
    }
}

impl View for SnapName {
    type V = Seq<char>;

    closed spec fn view(&self) -> Seq<char> {
        self.name@
    }
}

impl SnapName {
    /// Wrap a snapshot name. Validation is not specified yet, so every
    /// name is accepted.
    pub fn new(name: String) -> (r: Result<Self, NameError>)
        ensures
            r matches Ok(z) && z@ == name@,
    {
        Ok(SnapName { name })
    }

    /// The name as text.
    pub fn as_str(&self) -> (s: &str)
        ensures
            s@ == self@,
    {
        self.name.as_str()
    }
}

impl core::str::FromStr for SnapName {
    type Err = NameError;

    fn from_str(name: &str) -> Result<Self, Self::Err> {
        SnapName::new(name.to_owned())
    }
}

impl View for ZoneDir {
    type V = Seq<char>;

    closed spec fn view(&self) -> Seq<char> {
        self.path@
    }
}

impl ZoneDir {
    /// The zone's directory under the mzr directory.
    pub fn new(mzr_dir: &MzrDir, zone_name: &ZoneName) -> (d: Self)
        ensures
            d@ == mzr_dir@ + "/zone/"@ + zone_name@,
    {
        let mut path = mzr_dir.as_str().to_owned();
        path.append("/zone/");
        path.append(zone_name.as_str());
        ZoneDir { path }
    }

    /// The path as text.
    pub fn as_str(&self) -> (s: &str)
        ensures
            s@ == self@,
    {
        self.path.as_str()
    }
}

impl View for ZoneInfoFile {
    type V = Seq<char>;

    closed spec fn view(&self) -> Seq<char> {
        self.path@
    }
}

impl ZoneInfoFile {
    /// The info file inside the zone directory.
    pub fn new(zone_dir: &ZoneDir) -> (f: Self)
        ensures
            f@ == zone_dir@ + "/info.json"@,
    {
        let mut path = zone_dir.as_str().to_owned();
        path.append("/info.json");
        ZoneInfoFile { path }
    }

    /// The path as text.
    pub fn as_str(&self) -> (s: &str)
        ensures
            s@ == self@,
    {
        self.path.as_str()
    }
}

impl View for SnapDir {
    type V = Seq<char>;

    closed spec fn view(&self) -> Seq<char> {
        self.path@
    }
}

impl SnapDir {
    /// The snapshot's directory under the mzr directory.
    pub fn new(mzr_dir: &MzrDir, snap_name: &SnapName) -> (d: Self)
        ensures
            d@ == mzr_dir@ + "/snap/"@ + snap_name@,
    {
        let mut path = mzr_dir.as_str().to_owned();
        path.append("/snap/");
        path.append(snap_name.as_str());
        SnapDir { path }
    }

    /// The path as a command-line argument.
    pub fn to_arg(&self) -> (s: &str)
        ensures
            s@ == self@,
    {
        self.path.as_str()
    }
}

impl View for ChangesDir {
    type V = Seq<char>;

    closed spec fn view(&self) -> Seq<char> {
        self.path@
    }
}

impl ChangesDir {
    /// The changes directory inside the zone directory.
    pub fn new(zone_dir: &ZoneDir) -> (d: Self)
        ensures
            d@ == zone_dir@ + "/changes"@,
    {
        let mut path = zone_dir.as_str().to_owned();
        path.append("/changes");
        ChangesDir { path }
    }

    /// The path as text.
    pub fn as_str(&self) -> (s: &str)
        ensures
            s@ == self@,
    {
        self.path.as_str()
    }
}

impl View for OvfsWorkDir {
    type V = Seq<char>;

    closed spec fn view(&self) -> Seq<char> {
        self.path@
    }
}

impl OvfsWorkDir {
    /// The overlay work directory inside the zone directory.
    pub fn new(zone_dir: &ZoneDir) -> (d: Self)
        ensures
            d@ == zone_dir@ + "/ovfs-work"@,
    {
        let mut path = zone_dir.as_str().to_owned();
        path.append("/ovfs-work");
        OvfsWorkDir { path }
    }

    /// The path as text.
    pub fn as_str(&self) -> (s: &str)
        ensures
            s@ == self@,
    {
        self.path.as_str()
    }
}

impl View for DaemonPidFile {
    type V = Seq<char>;

    closed spec fn view(&self) -> Seq<char> {
        self.path@
    }
}

impl DaemonPidFile {
    /// The daemon pid-file inside the mzr directory.
    pub fn new(mzr_dir: &MzrDir) -> (f: Self)
        ensures
            f@ == mzr_dir@ + "/daemon.pid"@,
    {
        let mut path = mzr_dir.as_str().to_owned();
        path.append("/daemon.pid");
        DaemonPidFile { path }
    }

    /// The path as text.
    pub fn as_str(&self) -> (s: &str)
        ensures
            s@ == self@,
    {
        self.path.as_str()
    }
}

} // verus!
