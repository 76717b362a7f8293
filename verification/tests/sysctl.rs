use casper::channel::Casper;
use casper::error::{CapErr, CapErrType};
use casper::sysctl::{
    CapSysctl, CapSysctlFlags, CAP_SYSCTL_ALL, CAP_SYSCTL_RDWR, CAP_SYSCTL_READ,
    CAP_SYSCTL_RECURSIVE, CAP_SYSCTL_WRITE, SERVICE_NAME,
};

fn invalid() -> CapErr {
    CapErr { kind: CapErrType::Invalid }
}

fn service() -> CapSysctl {
    Casper::new(0x1000, 0).unwrap().sysctl(0x2000).unwrap()
}

#[test]
fn sysctl_service_name() {
    assert_eq!(SERVICE_NAME, "system.sysctl");
}

#[test]
fn rights_have_the_bits_of_the_system_headers() {
    assert_eq!(CAP_SYSCTL_READ, 1);
    assert_eq!(CAP_SYSCTL_WRITE, 2);
    assert_eq!(CAP_SYSCTL_RDWR, 3);
    assert_eq!(CAP_SYSCTL_RECURSIVE, 4);
    assert_eq!(CAP_SYSCTL_ALL, 7);
    assert_eq!(CapSysctlFlags::read().bits(), 1);
    assert_eq!(CapSysctlFlags::write().bits(), 2);
    assert_eq!(CapSysctlFlags::rdwr().bits(), 3);
    assert_eq!(CapSysctlFlags::recursive().bits(), 4);
    assert_eq!(CapSysctlFlags::empty().bits(), 0);
    assert_eq!(CapSysctlFlags::all().bits(), 7);
}

#[test]
fn rights_compose_by_or() {
    let rw = CapSysctlFlags::read().union(CapSysctlFlags::write());
    assert_eq!(rw, CapSysctlFlags::rdwr());
    let deep = CapSysctlFlags::read().union(CapSysctlFlags::recursive());
    assert_eq!(deep.bits(), 5);
    assert_eq!(deep.union(deep), deep);
    assert_eq!(CapSysctlFlags::empty().union(deep), deep);
    assert_eq!(deep.union(CapSysctlFlags::write()), CapSysctlFlags::all());
}

#[test]
fn rights_contain_their_parts() {
    let deep = CapSysctlFlags::read().union(CapSysctlFlags::recursive());
    assert!(deep.contains(CapSysctlFlags::read()));
    assert!(deep.contains(CapSysctlFlags::recursive()));
    assert!(deep.contains(CapSysctlFlags::empty()));
    assert!(!deep.contains(CapSysctlFlags::write()));
    assert!(!deep.contains(CapSysctlFlags::rdwr()));
    assert!(CapSysctlFlags::rdwr().contains(CapSysctlFlags::write()));
    assert!(CapSysctlFlags::empty().is_empty());
    assert!(!deep.is_empty());
}

#[test]
fn rights_from_bits_refuse_unknown_bits() {
    assert_eq!(CapSysctlFlags::from_bits(5).map(|f| f.bits()), Some(5));
    assert_eq!(CapSysctlFlags::from_bits(0), Some(CapSysctlFlags::empty()));
    assert_eq!(CapSysctlFlags::from_bits(7), Some(CapSysctlFlags::all()));
    assert_eq!(CapSysctlFlags::from_bits(8), None);
    assert_eq!(CapSysctlFlags::from_bits(9), None);
    assert_eq!(CapSysctlFlags::from_bits(-1), None);
    assert_eq!(CapSysctlFlags::from_bits(i32::MIN), None);
}

#[test]
fn opening_the_service_fails_on_a_null_handle() {
    let casper = Casper::new(0x1000, 0).unwrap();
    assert_eq!(casper.sysctl(0).err(), Some(invalid()));
}

#[test]
fn opening_the_service_keeps_the_handle() {
    assert_eq!(service().channel().as_ptr(), 0x2000);
}

#[test]
fn starting_a_list_fails_on_a_null_handle() {
    assert_eq!(service().limit(0).err(), Some(invalid()));
}

#[test]
fn starting_a_list_keeps_the_handle() {
    let list = service().limit(0x3000).ok().unwrap();
    assert_eq!(list.as_ptr(), 0x3000);
}

#[test]
fn adding_a_name_hands_back_the_new_list() {
    let list = service().limit(0x3000).ok().unwrap();
    let list = list.add_name(b"kern.ostype", CapSysctlFlags::read(), 0x3040).ok().unwrap();
    assert_eq!(list.as_ptr(), 0x3040);
    let list = list.add_name(b"kern", CapSysctlFlags::rdwr(), 0x3080).ok().unwrap();
    assert_eq!(list.as_ptr(), 0x3080);
}

#[test]
fn a_refused_name_is_an_error_and_ends_the_list() {
    let list = service().limit(0x3000).ok().unwrap();
    let r = list.add_name(b"no.such.sysctl", CapSysctlFlags::read(), 0);
    assert_eq!(r.err(), Some(invalid()));
}

#[test]
fn sealing_reports_a_negative_status() {
    let list = service().limit(0x3000).ok().unwrap();
    assert_eq!(list.limit(-1), Err(invalid()));
    let list = service().limit(0x3000).ok().unwrap();
    assert_eq!(list.limit(i32::MIN), Err(invalid()));
}

#[test]
fn sealing_an_empty_list_works() {
    let list = service().limit(0x3000).ok().unwrap();
    assert_eq!(list.limit(0), Ok(()));
}

#[test]
fn sealing_after_two_names_works() {
    let list = service().limit(0x3000).ok().unwrap();
    let list = list.add_name(b"kern.ostype", CapSysctlFlags::read(), 0x3040).ok().unwrap();
    let list = list.add_name(b"hw.ncpu", CapSysctlFlags::read(), 0x3080).ok().unwrap();
    assert_eq!(list.limit(0), Ok(()));
}

#[test]
fn sealing_takes_any_status_from_zero_up_as_success() {
    let list = service().limit(0x3000).ok().unwrap();
    assert_eq!(list.limit(1), Ok(()));
}
