use ebpf_tool::namespace::NamespaceKind;
use ebpf_tool::ns_error::NsError;

#[test]
fn test_create_namespace_error_display() {
    let err = NsError::CreateNamespace {
        kind: NamespaceKind::Pid,
        source: nix::Error::EINVAL,
    };
    assert_eq!(err.to_string(), "failed to create PID namespace");
}

#[test]
fn test_permission_error_suggests_sudo() {
    let err = NsError::PermissionDenied {
        operation: "creating PID namespace".to_string(),
    };
    let msg = err.to_string();
    assert!(msg.contains("root"), "Message should mention root: {}", msg);
    assert!(msg.contains("sudo"), "Message should mention sudo: {}", msg);
}

#[test]
fn test_proc_read_error_includes_path() {
    let err = NsError::proc_read(
        "/proc/self/ns/pid",
        std::io::Error::new(std::io::ErrorKind::NotFound, "not found"),
    );
    let msg = err.to_string();
    assert!(
        msg.contains("/proc/self/ns/pid"),
        "Message should include path: {}",
        msg
    );
}

#[test]
fn test_eperm_becomes_permission_denied() {
    let err = NsError::create_namespace(NamespaceKind::Pid, nix::Error::EPERM);
    match err {
        NsError::PermissionDenied { operation } => {
            assert!(
                operation.contains("PID"),
                "Operation should mention PID: {}",
                operation
            );
        }
        _ => panic!("Expected PermissionDenied, got {:?}", err),
    }
}

#[test]
fn test_eacces_becomes_permission_denied() {
    let err = NsError::create_namespace(NamespaceKind::Net, nix::Error::EACCES);
    match err {
        NsError::PermissionDenied { operation } => {
            assert!(
                operation.contains("network"),
                "Operation should mention network: {}",
                operation
            );
        }
        _ => panic!("Expected PermissionDenied, got {:?}", err),
    }
}

#[test]
fn test_join_namespace_error_with_path() {
    let err = NsError::JoinNamespace {
        kind: NamespaceKind::Net,
        path: String::from("/proc/1234/ns/net"),
        source: nix::Error::EINVAL,
    };
    let msg = err.to_string();
    assert!(
        msg.contains("network"),
        "Message should mention network: {}",
        msg
    );
    assert!(
        msg.contains("/proc/1234/ns/net"),
        "Message should include path: {}",
        msg
    );
}

#[test]
fn test_join_namespace_enoent_becomes_not_found() {
    let path = String::from("/proc/99999/ns/pid");
    let err = NsError::join_namespace(NamespaceKind::Pid, path.clone(), nix::Error::ENOENT);
    match err {
        NsError::NamespaceNotFound { path: p } => {
            assert_eq!(p, path);
        }
        _ => panic!("Expected NamespaceNotFound, got {:?}", err),
    }
}

#[test]
fn test_fork_error() {
    let err = NsError::fork(nix::Error::EAGAIN);
    match err {
        NsError::Fork(source) => {
            assert_eq!(source, nix::Error::EAGAIN);
        }
        _ => panic!("Expected Fork, got {:?}", err),
    }
}

#[test]
fn test_set_hostname_error() {
    let err = NsError::set_hostname("test-host", nix::Error::EINVAL);
    match err {
        NsError::SetHostname { hostname, source } => {
            assert_eq!(hostname, "test-host");
            assert_eq!(source, nix::Error::EINVAL);
        }
        _ => panic!("Expected SetHostname, got {:?}", err),
    }
}

#[test]
fn create_namespace_keeps_other_errors() {
    match NsError::create_namespace(NamespaceKind::User, nix::Error::EINVAL) {
        NsError::CreateNamespace { kind, source } => {
            assert_eq!(kind, NamespaceKind::User);
            assert_eq!(source, nix::Error::EINVAL);
        }
        other => panic!("Expected CreateNamespace, got {:?}", other),
    }
    match NsError::create_namespace(NamespaceKind::User, nix::Error::ENOENT) {
        NsError::CreateNamespace { source, .. } => assert_eq!(source, nix::Error::ENOENT),
        other => panic!("Expected CreateNamespace, got {:?}", other),
    }
}

#[test]
fn permission_denied_names_the_operation_exactly() {
    match NsError::create_namespace(NamespaceKind::Mount, nix::Error::EPERM) {
        NsError::PermissionDenied { operation } => assert_eq!(operation, "creating mount namespace"),
        other => panic!("Expected PermissionDenied, got {:?}", other),
    }
    match NsError::join_namespace(NamespaceKind::Uts, String::from("/p"), nix::Error::EACCES) {
        NsError::PermissionDenied { operation } => assert_eq!(operation, "joining UTS namespace"),
        other => panic!("Expected PermissionDenied, got {:?}", other),
    }
    match NsError::join_namespace(NamespaceKind::Uts, String::from("/p"), nix::Error::EPERM) {
        NsError::PermissionDenied { operation } => assert_eq!(operation, "joining UTS namespace"),
        other => panic!("Expected PermissionDenied, got {:?}", other),
    }
    match NsError::fork(nix::Error::EPERM) {
        NsError::PermissionDenied { operation } => assert_eq!(operation, "forking child process"),
        other => panic!("Expected PermissionDenied, got {:?}", other),
    }
    match NsError::set_hostname("h", nix::Error::EPERM) {
        NsError::PermissionDenied { operation } => assert_eq!(operation, "setting hostname"),
        other => panic!("Expected PermissionDenied, got {:?}", other),
    }
}

#[test]
fn fork_and_hostname_keep_a_refused_access() {
    match NsError::fork(nix::Error::EACCES) {
        NsError::Fork(source) => assert_eq!(source, nix::Error::EACCES),
        other => panic!("Expected Fork, got {:?}", other),
    }
    match NsError::set_hostname("h", nix::Error::EACCES) {
        NsError::SetHostname { source, .. } => assert_eq!(source, nix::Error::EACCES),
        other => panic!("Expected SetHostname, got {:?}", other),
    }
}

#[test]
fn join_namespace_keeps_other_errors() {
    match NsError::join_namespace(NamespaceKind::Ipc, String::from("/proc/1/ns/ipc"), nix::Error::EINVAL) {
        NsError::JoinNamespace { kind, path, source } => {
            assert_eq!(kind, NamespaceKind::Ipc);
            assert_eq!(path, "/proc/1/ns/ipc");
            assert_eq!(source, nix::Error::EINVAL);
        }
        other => panic!("Expected JoinNamespace, got {:?}", other),
    }
}

#[test]
fn messages_are_exact() {
    assert_eq!(
        NsError::JoinNamespace {
            kind: NamespaceKind::Net,
            path: String::from("/proc/1234/ns/net"),
            source: nix::Error::EINVAL,
        }
        .message(),
        "failed to join network namespace from /proc/1234/ns/net"
    );
    assert_eq!(NsError::Fork(nix::Error::EAGAIN).message(), "failed to fork child process");
    assert_eq!(
        NsError::proc_read("/proc/self/ns/pid", std::io::Error::other("x")).message(),
        "failed to read /proc/self/ns/pid"
    );
    assert_eq!(
        NsError::set_hostname("box", nix::Error::EINVAL).message(),
        "failed to set hostname to 'box'"
    );
    assert_eq!(
        (NsError::PermissionDenied { operation: String::from("creating PID namespace") }).message(),
        "creating PID namespace requires root privileges (try: sudo)"
    );
    assert_eq!(
        (NsError::NamespaceNotFound { path: String::from("/proc/9/ns/pid") }).message(),
        "namespace file not found: /proc/9/ns/pid"
    );
}
