use std::str::FromStr;

use mzr::paths::ChangesDir;
use mzr::paths::DaemonPidFile;
use mzr::paths::MzrDir;
use mzr::paths::OvfsWorkDir;
use mzr::paths::SnapDir;
use mzr::paths::SnapName;
use mzr::paths::UserWorkDir;
use mzr::paths::ZoneDir;
use mzr::paths::ZoneInfoFile;
use mzr::paths::ZoneName;

#[test]
fn mzr_dir_sits_beside_the_work_dir() {
    let work = UserWorkDir::new(&"/home/user/proj".to_string());
    assert_eq!(work.to_arg(), "/home/user/proj");
    let mzr_dir = MzrDir::new(&work);
    assert_eq!(mzr_dir.as_str(), "/home/user/proj.mzr");
}

#[test]
fn zone_paths_nest_under_the_mzr_dir() {
    let work = UserWorkDir::new(&"/home/user/proj".to_string());
    let mzr_dir = MzrDir::new(&work);
    let zone = ZoneName::new("feature".to_string()).unwrap();
    assert_eq!(zone.as_str(), "feature");
    let zone_dir = ZoneDir::new(&mzr_dir, &zone);
    assert_eq!(zone_dir.as_str(), "/home/user/proj.mzr/zone/feature");
    let info = ZoneInfoFile::new(&zone_dir);
    assert_eq!(info.as_str(), "/home/user/proj.mzr/zone/feature/info.json");
    let changes = ChangesDir::new(&zone_dir);
    assert_eq!(changes.as_str(), "/home/user/proj.mzr/zone/feature/changes");
    let ovfs = OvfsWorkDir::new(&zone_dir);
    assert_eq!(ovfs.as_str(), "/home/user/proj.mzr/zone/feature/ovfs-work");
}

#[test]
fn snap_paths_nest_under_the_mzr_dir() {
    let work = UserWorkDir::new(&"/srv/code".to_string());
    let mzr_dir = MzrDir::new(&work);
    let snap = SnapName::new("base".to_string()).unwrap();
    assert_eq!(snap.as_str(), "base");
    let snap_dir = SnapDir::new(&mzr_dir, &snap);
    assert_eq!(snap_dir.to_arg(), "/srv/code.mzr/snap/base");
}

#[test]
fn daemon_pid_file_sits_in_the_mzr_dir() {
    let work = UserWorkDir::new(&"/srv/code".to_string());
    let mzr_dir = MzrDir::new(&work);
    let pid_file = DaemonPidFile::new(&mzr_dir);
    assert_eq!(pid_file.as_str(), "/srv/code.mzr/daemon.pid");
}

#[test]
fn names_parse_from_strings() {
    let zone = ZoneName::from_str("myzone").unwrap();
    assert_eq!(zone.as_str(), "myzone");
    let snap = SnapName::from_str("mysnap").unwrap();
    assert_eq!(snap.as_str(), "mysnap");
}
