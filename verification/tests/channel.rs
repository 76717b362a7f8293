use casper::channel::{CapChannel, Casper};
use casper::error::OsError;

#[test]
fn connect_with_null_handle_reports_the_code() {
    let r = Casper::new(0, 12);
    assert_eq!(r.err(), Some(OsError { code: 12 }));
}

#[test]
fn connect_keeps_the_handle() {
    let casper = Casper::new(0x7f00_1000, 0).unwrap();
    assert_eq!(casper.channel().as_ptr(), 0x7f00_1000);
}

#[test]
fn connect_ignores_a_stale_code_on_success() {
    let casper = Casper::new(0x10, 2).unwrap();
    assert_eq!(casper.channel().as_ptr(), 0x10);
}

#[test]
fn clone_holds_the_handle_of_the_duplicate() {
    let first = Casper::new(0x1000, 0).unwrap();
    let second = first.try_clone(0x2000, 0).unwrap();
    assert_eq!(second.channel().as_ptr(), 0x2000);
    assert_eq!(first.channel().as_ptr(), 0x1000);
}

#[test]
fn clone_outlives_nothing_of_the_first() {
    let first = Casper::new(0x1000, 0).unwrap();
    let second = first.try_clone(0x2000, 0).unwrap();
    drop(first);
    assert_eq!(second.channel().as_ptr(), 0x2000);
    let group = second.group(0x3000, 0).unwrap();
    assert_eq!(group.channel().as_ptr(), 0x3000);
}

#[test]
fn first_outlives_its_clone() {
    let first = Casper::new(0x1000, 0).unwrap();
    let second = first.try_clone(0x2000, 0).unwrap();
    drop(second);
    assert_eq!(first.channel().as_ptr(), 0x1000);
    let third = first.try_clone(0x4000, 0).unwrap();
    assert_eq!(third.channel().as_ptr(), 0x4000);
}

#[test]
fn failed_clone_reports_the_code_and_leaves_the_first() {
    let first = Casper::new(0x1000, 0).unwrap();
    let r = first.try_clone(0, 24);
    assert_eq!(r.err(), Some(OsError { code: 24 }));
    assert_eq!(first.channel().as_ptr(), 0x1000);
}

#[test]
fn service_open_with_null_handle_reports_the_code() {
    let casper = Casper::new(0x1000, 0).unwrap();
    let r = casper.service_open(0, 2);
    assert_eq!(r.err(), Some(OsError { code: 2 }));
}

#[test]
fn service_open_keeps_the_handle() {
    let casper = Casper::new(0x1000, 0).unwrap();
    let chan = casper.service_open(0x5000, 0).unwrap();
    assert_eq!(chan.as_ptr(), 0x5000);
    assert_eq!(casper.channel().as_ptr(), 0x1000);
}

#[test]
fn channel_from_raw_tells_null_from_a_handle() {
    assert_eq!(CapChannel::from_raw(0, 9).err(), Some(OsError { code: 9 }));
    assert_eq!(CapChannel::from_raw(1, 9).unwrap().as_ptr(), 1);
    assert_eq!(CapChannel::from_raw(usize::MAX, 0).unwrap().as_ptr(), usize::MAX);
}

#[test]
fn both_pointer_accessors_give_the_handle() {
    let mut chan = CapChannel::from_raw(0xabc0, 0).unwrap();
    assert_eq!(chan.as_mut_ptr(), 0xabc0);
    assert_eq!(chan.as_ptr(), 0xabc0);
    assert_eq!(chan.as_mut_ptr(), 0xabc0);
}
