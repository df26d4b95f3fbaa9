//! The errors of namespace operations.
//!
//! Each constructor looks at the error number that the system gave and picks
//! the variant that tells the user most: a missing permission and a missing
//! namespace file get variants of their own.

use crate::errno::{EACCES, ENOENT, EPERM};
use crate::namespace::NamespaceKind;
use vstd::prelude::*;
use vstd::string::*;

verus! {

/// The error of a system call, as the `nix` crate has it. Nothing is known
/// of a value but its number.
#[verifier::external_type_specification]
#[verifier::external_body]
pub struct ExErrno(nix::errno::Errno);

/// The error of an input or output operation of the standard library. It is
/// carried, never looked into.
#[verifier::external_type_specification]
#[verifier::external_body]
pub struct ExIoError(std::io::Error);

/// The number of an error of a system call: the value of the enum
/// `nix::errno::Errno` as a 32-bit integer.
pub uninterp spec fn errno_number(e: nix::errno::Errno) -> i32;

/// Gives the number of `e`: the cast of the `nix::errno::Errno` to `i32`,
/// which is the value that the enum declares for the variant. The contract
/// claims only that the number depends on the error alone.
#[verifier::external_body]
fn errno_code(e: nix::errno::Errno) -> (code: i32)
    ensures
        code == errno_number(e),
{
    e as i32
}

/// Errors of namespace operations.
#[derive(Debug)]
#[allow(inconsistent_fields)]
pub enum NsError {
    /// A new namespace could not be created.
    CreateNamespace { kind: NamespaceKind, source: nix::errno::Errno },
    /// An existing namespace could not be joined.
    JoinNamespace { kind: NamespaceKind, path: String, source: nix::errno::Errno },
    /// A child process could not be forked.
    Fork(nix::errno::Errno),
    /// A file of the process file system could not be read.
    ProcRead { path: String, source: std::io::Error },
    /// The host name could not be set.
    SetHostname { hostname: String, source: nix::errno::Errno },
    /// The operation needs the superuser.
    PermissionDenied { operation: String },
    /// A namespace file does not exist.
    NamespaceNotFound { path: String },
}

/// Whether `code` tells of a missing permission or a refused access.
pub open spec fn is_permission(code: i32) -> bool {
    code == EPERM || code == EACCES
}

impl NsError {
    /// The message of the error.
    pub open spec fn text(&self) -> Seq<char> {
        match self {
            NsError::CreateNamespace { kind, .. } => "failed to create "@ + kind.name()
                + " namespace"@,
            NsError::JoinNamespace { kind, path, .. } => "failed to join "@ + kind.name()
                + " namespace from "@ + path@,
            NsError::Fork(_) => "failed to fork child process"@,
            NsError::ProcRead { path, .. } => "failed to read "@ + path@,
            NsError::SetHostname { hostname, .. } => "failed to set hostname to '"@ + hostname@
                + "'"@,
            NsError::PermissionDenied { operation } => operation@
                + " requires root privileges (try: sudo)"@,
            NsError::NamespaceNotFound { path } => "namespace file not found: "@ + path@,
        }
    }

    /// Whether `r` is the error of creating a namespace of `kind` that the
    /// system refused with an error of number `code`.
    pub open spec fn created_from(r: NsError, kind: NamespaceKind, source: nix::errno::Errno, code: i32) -> bool {
        if is_permission(code) {
            r matches NsError::PermissionDenied { operation } && operation@ == "creating "@
                + kind.name() + " namespace"@
        } else {
            r matches NsError::CreateNamespace { kind: k, source: s } && k == kind && s == source
        }
    }

    /// Whether `r` is the error of joining the namespace of `kind` at `path`
    /// that the system refused with an error of number `code`.
    pub open spec fn joined_from(
        r: NsError,
        kind: NamespaceKind,
        path: Seq<char>,
        source: nix::errno::Errno,
        code: i32,
    ) -> bool {
        if is_permission(code) {
            r matches NsError::PermissionDenied { operation } && operation@ == "joining "@
                + kind.name() + " namespace"@
        } else if code == ENOENT {
            r matches NsError::NamespaceNotFound { path: p } && p@ == path
        } else {
            r matches NsError::JoinNamespace { kind: k, path: p, source: s } && k == kind && p@
                == path && s == source
        }
    }

    /// The error of creating a namespace of `kind`. A missing permission or
    /// a refused access becomes `PermissionDenied` and names the operation.
    pub fn create_namespace(kind: NamespaceKind, source: nix::errno::Errno) -> (r: Self)
        ensures
            Self::created_from(r, kind, source, errno_number(source)),
    {
        let code = errno_code(source);
        if code == EPERM || code == EACCES {
            let mut operation = String::from_str("creating ");
            operation.append(kind.as_str());
            operation.append(" namespace");
            return NsError::PermissionDenied { operation };
        }
        NsError::CreateNamespace { kind, source }
    }

    /// The error of joining the namespace of `kind` at `path`. A missing
    /// permission or a refused access becomes `PermissionDenied`; a missing
    /// file becomes `NamespaceNotFound` with the path.
    pub fn join_namespace(kind: NamespaceKind, path: String, source: nix::errno::Errno) -> (r: Self)
        ensures
            Self::joined_from(r, kind, path@, source, errno_number(source)),
    {
        let code = errno_code(source);
        if code == EPERM || code == EACCES {
            let mut operation = String::from_str("joining ");
            operation.append(kind.as_str());
            operation.append(" namespace");
            return NsError::PermissionDenied { operation };
        }
        if code == ENOENT {
            return NsError::NamespaceNotFound { path };
        }
        NsError::JoinNamespace { kind, path, source }
    }

    /// The error of reading `path` in the process file system.
    pub fn proc_read(path: &str, source: std::io::Error) -> (r: Self)
        ensures
            r matches NsError::ProcRead { path: p, source: s } && p@ == path@ && s == source,
    {
        NsError::ProcRead { path: String::from_str(path), source }
    }

    /// The error of forking a child process. A missing permission becomes
    /// `PermissionDenied`.
    pub fn fork(source: nix::errno::Errno) -> (r: Self)
        ensures
            errno_number(source) == EPERM ==> (r matches NsError::PermissionDenied { operation }
                && operation@ == "forking child process"@),
            errno_number(source) != EPERM ==> (r matches NsError::Fork(s) && s == source),
    {
        if errno_code(source) == EPERM {
            return NsError::PermissionDenied { operation: String::from_str("forking child process") };
        }
        NsError::Fork(source)
    }

    /// The error of setting the host name to `hostname`. A missing
    /// permission becomes `PermissionDenied`.
    pub fn set_hostname(hostname: &str, source: nix::errno::Errno) -> (r: Self)
        ensures
            errno_number(source) == EPERM ==> (r matches NsError::PermissionDenied { operation }
                && operation@ == "setting hostname"@),
            errno_number(source) != EPERM ==> (r matches NsError::SetHostname {
                hostname: h,
                source: s,
            } && h@ == hostname@ && s == source),
    {
        if errno_code(source) == EPERM {
            return NsError::PermissionDenied { operation: String::from_str("setting hostname") };
        }
        NsError::SetHostname { hostname: String::from_str(hostname), source }
    }

    /// The message of the error.
    pub fn message(&self) -> (m: String)
        ensures
            m@ == self.text(),
    {
        match self {
            NsError::CreateNamespace { kind, .. } => {
                let mut m = String::from_str("failed to create ");
                m.append(kind.as_str());
                m.append(" namespace");
                m
            },
            NsError::JoinNamespace { kind, path, .. } => {
                let mut m = String::from_str("failed to join ");
                m.append(kind.as_str());
                m.append(" namespace from ");
                m.append(path.as_str());
                m
            },
            NsError::Fork(_) => String::from_str("failed to fork child process"),
            NsError::ProcRead { path, .. } => {
                let mut m = String::from_str("failed to read ");
                m.append(path.as_str());
                m
            },
            NsError::SetHostname { hostname, .. } => {
                let mut m = String::from_str("failed to set hostname to '");
                m.append(hostname.as_str());
                m.append("'");
                m
            },
            NsError::PermissionDenied { operation } => {
                let mut m = String::from_str(operation.as_str());
                m.append(" requires root privileges (try: sudo)");
                m
            },
            NsError::NamespaceNotFound { path } => {
                let mut m = String::from_str("namespace file not found: ");
                m.append(path.as_str());
                m
            },
        }
    }

    /// The message of the error.
    pub fn to_string(&self) -> (m: String)
        ensures
            m@ == self.text(),
    {
        self.message()
    }
}

} // verus!
