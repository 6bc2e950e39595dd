use quark::common::{Error, EINVAL, EPERM};
use quark::mount::{
    MountPlan, MountSourceFlags, SysMount, SysUmount2, UmountPlan, MNT_DETACH, MNT_FORCE,
    MS_BIND, MS_MGC_VAL, MS_NOATIME, MS_NOEXEC, MS_NOSUID, MS_RDONLY, MS_REMOUNT, MS_STRICTATIME,
    UMOUNT_NOFOLLOW,
};
use quark::tsot_msg::{ErrCode, PeerConnectNotify, TsotMessage, TsotMsg};
use quark::uid::{NewUID, UidGen};
use quark::vm_type::VmType;

#[test]
fn vm_type_codes() {
    assert_eq!(VmType::from_u64(0), Some(VmType::Normal));
    assert_eq!(VmType::from_u64(1), Some(VmType::SevSnp));
    assert_eq!(VmType::from_u64(2), None);
    assert_eq!(VmType::SevSnp.to_u64(), 1);
    assert_eq!(VmType::default(), VmType::Normal);
}

#[test]
fn mount_needs_admin() {
    assert_eq!(SysMount(false, 0), Err(Error::SysError(EPERM)));
    assert_eq!(SysUmount2(false, 0), Err(Error::SysError(EPERM)));
}

#[test]
fn mount_flags() {
    assert_eq!(SysMount(true, MS_NOSUID), Err(Error::SysError(EINVAL)));
    assert_eq!(SysMount(true, MS_REMOUNT), Err(Error::SysError(EINVAL)));
    assert_eq!(SysMount(true, MS_BIND), Ok(MountPlan::Bind));
    assert_eq!(
        SysMount(true, MS_MGC_VAL | MS_RDONLY | MS_NOEXEC | MS_NOATIME),
        Ok(MountPlan::NewFs(MountSourceFlags { ReadOnly: true, NoAtime: true, NoExec: true }))
    );
    assert_eq!(
        SysMount(true, MS_NOATIME | MS_STRICTATIME),
        Ok(MountPlan::NewFs(MountSourceFlags { ReadOnly: false, NoAtime: false, NoExec: false }))
    );
}

#[test]
fn umount_flags() {
    assert_eq!(SysUmount2(true, MNT_FORCE), Err(Error::SysError(EINVAL)));
    assert_eq!(SysUmount2(true, MNT_DETACH), Ok(UmountPlan { resolve: false, detach: true }));
    assert_eq!(SysUmount2(true, UMOUNT_NOFOLLOW), Ok(UmountPlan { resolve: true, detach: false }));
}

#[test]
fn peer_address_bytes() {
    let n = PeerConnectNotify { peerIp: 0x0102_030a, peerPort: 80, localPort: 8080 };
    assert_eq!(n.PeerAddrBytes(), [0x0a, 0x03, 0x02, 0x01]);
}

#[test]
fn tsot_defaults() {
    assert_eq!(ErrCode::ECONNREFUSED.code(), 111);
    assert_eq!(ErrCode::PodUidDonotExisit.code(), 1);
    assert_eq!(ErrCode::NoError.code(), 0);
    let d = TsotMessage::default();
    assert_eq!(d.socket, 0);
    assert!(matches!(d.msg, TsotMsg::Empty));
    let m = TsotMessage::from_msg(TsotMsg::Empty);
    assert_eq!(m.socket, -1);
}

#[test]
fn unique_ids_count_up() {
    let mut g = UidGen::New();
    assert_eq!(NewUID(&mut g), 1);
    assert_eq!(NewUID(&mut g), 2);
    assert_eq!(g.next, 3);
}
