use vstd::prelude::*;

use crate::common::{Error, EINVAL, EPERM};

verus! {

// mount(2) flags.
pub const MS_RDONLY: u64 = 1;
pub const MS_NOSUID: u64 = 2;
pub const MS_NODEV: u64 = 4;
pub const MS_NOEXEC: u64 = 8;
pub const MS_REMOUNT: u64 = 32;
pub const MS_NOATIME: u64 = 1024;
pub const MS_NODIRATIME: u64 = 2048;
pub const MS_BIND: u64 = 4096;
pub const MS_MOVE: u64 = 8192;
pub const MS_UNBINDABLE: u64 = 0x20000;
pub const MS_STRICTATIME: u64 = 0x1000000;
pub const MS_MGC_VAL: u64 = 0xC0ED0000;
pub const MS_MGC_MSK: u64 = 0xffff0000;

// umount2(2) flags.
pub const MNT_FORCE: u64 = 1;
pub const MNT_DETACH: u64 = 2;
pub const MNT_EXPIRE: u64 = 4;
pub const UMOUNT_NOFOLLOW: u64 = 8;

/// The mount(2) flags that are refused because they are not implemented.
pub const MS_UNSUPPORTED: u64 = 0x20000 | 8192 | 2048 | 4 | 2;
/// The umount2(2) flags that are refused.
pub const MNT_UNSUPPORTED: u64 = 1 | 4;

/// Options of a new mount.
#[derive(Clone, Copy, Debug, Default, PartialEq, Eq, Structural)]
pub struct MountSourceFlags {
    pub ReadOnly: bool,
    pub NoAtime: bool,
    pub NoExec: bool,
}

/// What a validated mount(2) asks for.
#[derive(Clone, Copy, Debug, PartialEq, Eq, Structural)]
pub enum MountPlan {
    /// Bind the source path's inode at the target path.
    Bind,
    /// Mount a new filesystem of the named type, with these options, at the target.
    NewFs(MountSourceFlags),
}

/// The flags with the pre-2.4 magic value dropped.
pub open spec fn mount_flags(flags: u64) -> u64 {
    if flags & MS_MGC_MSK == MS_MGC_VAL {
        flags & !MS_MGC_MSK
    } else {
        flags
    }
}

pub open spec fn mount_opts(f: u64) -> MountSourceFlags {
    MountSourceFlags {
        ReadOnly: f & MS_RDONLY == MS_RDONLY,
        NoAtime: f & (MS_NOATIME | MS_STRICTATIME) == MS_NOATIME,
        NoExec: f & MS_NOEXEC == MS_NOEXEC,
    }
}

/// Validates a mount(2) call: the caller needs `CAP_SYS_ADMIN` (`EPERM`);
/// flags that are not implemented, and remounts, are refused (`EINVAL`).
pub fn SysMount(has_sys_admin: bool, flags: u64) -> (r: Result<MountPlan, Error>)
    ensures
        !has_sys_admin ==> r == Err::<MountPlan, Error>(Error::SysError(EPERM)),
        has_sys_admin && mount_flags(flags) & MS_UNSUPPORTED != 0 ==> r == Err::<MountPlan, Error>(
            Error::SysError(EINVAL),
        ),
        has_sys_admin && mount_flags(flags) & MS_UNSUPPORTED == 0 && mount_flags(flags) & MS_REMOUNT
            != 0 ==> r == Err::<MountPlan, Error>(Error::SysError(EINVAL)),
        has_sys_admin && mount_flags(flags) & MS_UNSUPPORTED == 0 && mount_flags(flags) & MS_REMOUNT
            == 0 ==> r == Ok::<MountPlan, Error>(
            if mount_flags(flags) & MS_BIND != 0 {
                MountPlan::Bind
            } else {
                MountPlan::NewFs(mount_opts(mount_flags(flags)))
            },
        ),
{
    if !has_sys_admin {
        return Err(Error::SysError(EPERM));
    }
    let mut flags = flags;
    if flags & MS_MGC_MSK == MS_MGC_VAL {
        flags = flags & !MS_MGC_MSK;
    }
    if flags & MS_UNSUPPORTED != 0 {
        return Err(Error::SysError(EINVAL));
    }
    let opts = MountSourceFlags {
        ReadOnly: flags & MS_RDONLY == MS_RDONLY,
        NoAtime: flags & (MS_NOATIME | MS_STRICTATIME) == MS_NOATIME,
        NoExec: flags & MS_NOEXEC == MS_NOEXEC,
    };
    if flags & MS_REMOUNT != 0 {
        return Err(Error::SysError(EINVAL));
    }
    if flags & MS_BIND != 0 {
        return Ok(MountPlan::Bind);
    }
    Ok(MountPlan::NewFs(opts))
}

/// What a validated umount2(2) asks for.
#[derive(Clone, Copy, Debug, PartialEq, Eq, Structural)]
pub struct UmountPlan {
    /// The `resolve` argument of the path walk: set when `UMOUNT_NOFOLLOW` is given.
    pub resolve: bool,
    /// Detach lazily.
    pub detach: bool,
}

/// Validates an umount2(2) call: the caller needs `CAP_SYS_ADMIN` (`EPERM`);
/// forced and expiring unmounts are refused (`EINVAL`).
pub fn SysUmount2(has_sys_admin: bool, flags: u64) -> (r: Result<UmountPlan, Error>)
    ensures
        !has_sys_admin ==> r == Err::<UmountPlan, Error>(Error::SysError(EPERM)),
        has_sys_admin && flags & MNT_UNSUPPORTED != 0 ==> r == Err::<UmountPlan, Error>(
            Error::SysError(EINVAL),
        ),
        has_sys_admin && flags & MNT_UNSUPPORTED == 0 ==> r == Ok::<UmountPlan, Error>(
            UmountPlan { resolve: flags & UMOUNT_NOFOLLOW > 0, detach: flags & MNT_DETACH > 0 },
        ),
{
    if !has_sys_admin {
        return Err(Error::SysError(EPERM));
    }
    if flags & MNT_UNSUPPORTED != 0 {
        return Err(Error::SysError(EINVAL));
    }
    Ok(UmountPlan { resolve: flags & UMOUNT_NOFOLLOW > 0, detach: flags & MNT_DETACH > 0 })
}

} // verus!
