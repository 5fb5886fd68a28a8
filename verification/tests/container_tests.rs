use mzr::container::with_unshared_user_and_mount;
use mzr::outcome::SandboxOutcome;

#[test]
fn successful_work_is_reported_as_success() {
    let r = with_unshared_user_and_mount(|| Ok(()));
    let outcome = r.expect("sandbox run failed");
    assert!(outcome.is_success());
    assert_eq!(outcome, SandboxOutcome::NormalExit(0));
}

#[test]
fn failing_work_is_reported_as_exit_code_one() {
    let r = with_unshared_user_and_mount(|| Err("disk full".to_string()));
    let outcome = r.expect("sandbox run failed");
    assert!(!outcome.is_success());
    assert_eq!(outcome, SandboxOutcome::NormalExit(1));
}

#[test]
fn work_observes_uid_zero_inside_the_namespace() {
    let r = with_unshared_user_and_mount(|| {
        if nix::unistd::geteuid().is_root() {
            Ok(())
        } else {
            Err("effective uid inside the namespace is not 0".to_string())
        }
    });
    let outcome = r.expect("sandbox run failed");
    assert!(outcome.is_success());
}

#[test]
fn work_runs_as_root_and_leaves_marker_visible_outside() {
    let pid = nix::unistd::getpid().as_raw();
    let marker = format!("/tmp/mzr_marker_{}", pid);
    let marker_in_child = marker.clone();
    let r = with_unshared_user_and_mount(move || {
        if !nix::unistd::geteuid().is_root() {
            return Err("effective uid inside the namespace is not 0".to_string());
        }
        let fd = nix::fcntl::open(
            marker_in_child.as_str(),
            nix::fcntl::OFlag::O_WRONLY | nix::fcntl::OFlag::O_CREAT,
            nix::sys::stat::Mode::from_bits_truncate(0o644),
        )
        .map_err(|e| e.to_string())?;
        nix::unistd::write(fd, b"ok").map_err(|e| e.to_string())?;
        let _ = nix::unistd::close(fd);
        Ok(())
    });
    let outcome = r.expect("sandbox run failed");
    assert!(outcome.is_success());

    let fd = nix::fcntl::open(
        marker.as_str(),
        nix::fcntl::OFlag::O_RDONLY,
        nix::sys::stat::Mode::empty(),
    )
    .expect("marker file missing outside the sandbox");
    let mut buf = [0u8; 8];
    let n = nix::unistd::read(fd, &mut buf).expect("marker file unreadable");
    let _ = nix::unistd::close(fd);
    assert_eq!(&buf[..n], b"ok");
    let _ = nix::unistd::unlink(marker.as_str());
}

#[test]
fn child_killed_by_signal_is_reported_as_signaled() {
    let r = with_unshared_user_and_mount(|| {
        let _ = nix::sys::signal::kill(nix::unistd::getpid(), nix::sys::signal::Signal::SIGKILL);
        Err("still alive after SIGKILL".to_string())
    });
    let outcome = r.expect("sandbox run failed");
    assert_eq!(outcome, SandboxOutcome::Signaled(9));
    assert!(!outcome.is_success());
}
