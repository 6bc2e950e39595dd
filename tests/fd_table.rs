use quark::common::{Error, EBADF, EINVAL, EMFILE};
use quark::fd_table::{
    FDFlags, FDTable, FDTableInternal, File, FD_CLOEXEC, IN_CLOSE_NOWRITE, IN_CLOSE_WRITE, IN_ISDIR,
    O_CLOEXEC,
};
use quark::uid::{NewUID, UidGen};

fn file(id: u64) -> File {
    File { unique_id: id, is_dir: false, writable: true }
}

const NO_LIMIT: u64 = u64::MAX;

#[test]
fn new_fds_take_the_lowest_number() {
    let mut t = FDTable::New(1);
    let fl = FDFlags::default();
    assert_eq!(t.NewFDFrom(0, &file(1), &fl, NO_LIMIT), Ok(0));
    assert_eq!(t.NewFDFrom(0, &file(2), &fl, NO_LIMIT), Ok(1));
    assert_eq!(t.NewFDFrom(5, &file(3), &fl, NO_LIMIT), Ok(5));
    assert_eq!(t.NewFDFrom(0, &file(4), &fl, NO_LIMIT), Ok(2));
    assert_eq!(t.Count(), 4);
    assert_eq!(t.internal.GetFDs(), vec![0, 1, 2, 5]);
    assert_eq!(t.internal.GetLastFd(), 5);
}

#[test]
fn new_fd_errors() {
    let mut t = FDTable::New(1);
    let fl = FDFlags::default();
    assert_eq!(t.NewFDFrom(-1, &file(1), &fl, NO_LIMIT), Err(Error::SysError(EINVAL)));
    assert_eq!(t.NewFDFrom(0, &file(1), &fl, 2), Ok(0));
    assert_eq!(t.NewFDFrom(0, &file(1), &fl, 2), Ok(1));
    assert_eq!(t.NewFDFrom(0, &file(1), &fl, 2), Err(Error::SysError(EMFILE)));
    assert_eq!(t.NewFDFrom(2, &file(1), &fl, 2), Err(Error::SysError(EMFILE)));
    assert_eq!(t.Count(), 2);
    // The failed allocation gave its number back.
    assert_eq!(t.NewFDFrom(0, &file(1), &fl, 3), Ok(2));
}

#[test]
fn dup_copies_to_lowest_free() {
    let mut t = FDTable::New(1);
    let fl = FDFlags { CloseOnExec: true };
    t.NewFDAt(3, &file(9), &fl, NO_LIMIT).unwrap();
    assert_eq!(t.Dup(3, NO_LIMIT), Ok(0));
    assert_eq!(t.internal.Get(0), Ok((file(9), fl)));
    assert_eq!(t.Dup(7, NO_LIMIT), Err(Error::SysError(EBADF)));
    assert_eq!(t.Dup(-2, NO_LIMIT), Err(Error::SysError(EBADF)));
}

#[test]
fn dup2_and_dup3() {
    let mut t = FDTable::New(1);
    let fl = FDFlags::default();
    t.NewFDAt(0, &file(1), &fl, NO_LIMIT).unwrap();
    t.NewFDAt(4, &file(2), &fl, NO_LIMIT).unwrap();
    assert_eq!(t.Dup2(0, 4, NO_LIMIT), Ok(4));
    assert_eq!(t.internal.Get(4), Ok((file(1), fl)));
    assert_eq!(t.Dup2(0, -1, NO_LIMIT), Err(Error::SysError(EBADF)));
    assert_eq!(t.Dup2(9, 1, NO_LIMIT), Err(Error::SysError(EBADF)));
    assert_eq!(t.Dup2(0, 10, 10), Err(Error::SysError(EMFILE)));
    assert_eq!(t.Dup3(0, 6, O_CLOEXEC, NO_LIMIT), Ok(6));
    assert_eq!(t.internal.Get(6), Ok((file(1), FDFlags { CloseOnExec: true })));
    assert_eq!(t.internal.GetFDs(), vec![0, 4, 6]);
}

#[test]
fn remove_frees_the_number() {
    let mut t = FDTableInternal::New();
    let fl = FDFlags::default();
    t.NewFDAt(0, &file(1), &fl);
    t.NewFDAt(1, &file(2), &fl);
    assert_eq!(t.Remove(0), Some(file(1)));
    assert_eq!(t.Remove(0), None);
    assert_eq!(t.Remove(-3), None);
    assert_eq!(t.gaps.AllocAfter(0), Some(0));
}

#[test]
fn remove_range_and_close_on_exec() {
    let mut t = FDTableInternal::New();
    for fd in 0..6 {
        t.NewFDAt(fd, &file(fd as u64), &FDFlags { CloseOnExec: fd % 2 == 1 });
    }
    assert_eq!(t.RemoveRange(1, 3), vec![file(1), file(2)]);
    assert_eq!(t.GetFDs(), vec![0, 3, 4, 5]);
    assert_eq!(t.RemoveCloseOnExec(), vec![file(3), file(5)]);
    assert_eq!(t.GetFDs(), vec![0, 4]);
    assert_eq!(t.GetFiles(), vec![file(0), file(4)]);
    t.RemoveAll();
    assert_eq!(t.Size(), 0);
    assert_eq!(t.GetLastFd(), 0);
}

#[test]
fn flags_for_a_range() {
    let mut t = FDTableInternal::New();
    for fd in 0..4 {
        t.NewFDAt(fd, &file(fd as u64), &FDFlags::default());
    }
    assert_eq!(t.SetFlagsForRange(2, 2, FDFlags { CloseOnExec: true }), Err(Error::SysError(EINVAL)));
    assert_eq!(t.SetFlagsForRange(-1, 2, FDFlags { CloseOnExec: true }), Err(Error::SysError(EINVAL)));
    assert_eq!(t.SetFlagsForRange(1, 3, FDFlags { CloseOnExec: true }), Ok(()));
    assert_eq!(t.Get(0).unwrap().1, FDFlags { CloseOnExec: false });
    assert_eq!(t.Get(1).unwrap().1, FDFlags { CloseOnExec: true });
    assert_eq!(t.Get(2).unwrap().1, FDFlags { CloseOnExec: true });
    assert_eq!(t.Get(3).unwrap().1, FDFlags { CloseOnExec: false });
    assert_eq!(t.SetFlags(3, &FDFlags { CloseOnExec: true }), Ok(()));
    assert_eq!(t.SetFlags(9, &FDFlags { CloseOnExec: true }), Err(Error::SysError(EBADF)));
    assert_eq!(t.Get(9), Err(Error::SysError(EBADF)));
}

#[test]
fn fork_keeps_low_fds_and_gets_a_new_id() {
    let mut uids = UidGen::New();
    let id = NewUID(&mut uids);
    assert_eq!(id, 1);
    let mut t = FDTable::New(id);
    for fd in 0..5 {
        t.NewFDAt(fd, &file(fd as u64), &FDFlags::default(), NO_LIMIT).unwrap();
    }
    let mut f = t.Fork(3, &mut uids);
    assert_eq!(f.ID(), 2);
    assert_eq!(t.ID(), 1);
    assert_eq!(f.internal.GetFDs(), vec![0, 1, 2]);
    assert_eq!(f.NewFDFrom(0, &file(7), &FDFlags::default(), NO_LIMIT), Ok(3));
    f.Clear();
    assert_eq!(f.Count(), 0);
    assert_eq!(t.Count(), 5);
}

#[test]
fn flag_encodings() {
    assert_eq!(FDFlags { CloseOnExec: true }.ToLinuxFileFlags(), O_CLOEXEC);
    assert_eq!(FDFlags { CloseOnExec: false }.ToLinuxFileFlags(), 0);
    assert_eq!(FDFlags { CloseOnExec: true }.ToLinuxFDFlags(), FD_CLOEXEC);
    assert_eq!(FDFlags { CloseOnExec: false }.ToLinuxFDFlags(), 0);
    assert_eq!(O_CLOEXEC, 0x80000);
}

#[test]
fn close_events() {
    let t = FDTableInternal::New();
    assert_eq!(t.Drop(&file(1), true), Some(IN_CLOSE_WRITE));
    assert_eq!(t.Drop(&file(1), false), None);
    let dir = File { unique_id: 2, is_dir: true, writable: false };
    assert_eq!(t.Drop(&dir, true), Some(IN_ISDIR | IN_CLOSE_NOWRITE));
}
