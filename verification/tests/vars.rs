use oro_link::vars::{
    BootSource, CanRead, CanWrite, Key, Perm, PowerType, SyncOp, SyncVar, UsbIface,
};

fn assert_readable<K: CanRead>(_: &K) {}
fn assert_writable<K: CanWrite>(_: &K) {}

#[test]
fn permissions() {
    assert!(Perm::RO.read() && !Perm::RO.write());
    assert!(Perm::RW.read() && Perm::RW.write());
    assert!(!Perm::WO.read() && Perm::WO.write());
}

#[test]
fn stored_names_round_trip() {
    for p in [PowerType::Usb, PowerType::UsbVbus, PowerType::Psu] {
        assert_eq!(PowerType::from_str(p.name()), Ok(p));
    }
    for u in [UsbIface::Port, UsbIface::Header] {
        assert_eq!(UsbIface::from_str(u.name()), Ok(u));
    }
    for b in [BootSource::UsbMsd, BootSource::Sd] {
        assert_eq!(BootSource::from_str(b.name()), Ok(b));
    }
    assert_eq!(PowerType::UsbVbus.name(), "usb_vbus");
    assert_eq!(BootSource::UsbMsd.name(), "usb");
    assert_eq!(PowerType::from_str("vbus"), Err(()));
}

#[test]
fn published_variable_syncs_changes() {
    let mut k: Key<i64, true, false> = Key::new("board_current_ma");
    assert_readable(&k);
    assert_eq!(k.name(), "board_current_ma");
    // A new readable variable is published at once, as a deletion.
    assert_eq!(k.begin_sync(), SyncOp::Delete);
    assert_eq!(k.begin_sync(), SyncOp::Skip);
    k.set(42);
    assert_eq!(k.begin_sync(), SyncOp::Push);
    assert_eq!(k.current(), Some(&42));
    assert_eq!(k.begin_sync(), SyncOp::Skip);
    k.unset();
    assert_eq!(k.begin_sync(), SyncOp::Delete);
}

#[test]
fn shared_variable_pushes_changes_and_pulls_otherwise() {
    let mut k: Key<bool, true, true> = Key::new("pr_run");
    assert_readable(&k);
    assert_writable(&k);
    assert_eq!(k.begin_sync(), SyncOp::Delete);
    assert_eq!(k.begin_sync(), SyncOp::Pull);
    k.finish_pull(Some(true));
    assert_eq!(k.get(), Some(&true));
    k.set(false);
    assert_eq!(k.begin_sync(), SyncOp::Push);
    assert_eq!(k.begin_sync(), SyncOp::Pull);
}

#[test]
fn fetched_variable_always_pulls() {
    let mut k: Key<u32, false, true> = Key::new("wol");
    assert_writable(&k);
    assert_eq!(k.get(), None);
    assert_eq!(k.begin_sync(), SyncOp::Pull);
    k.finish_pull(Some(5));
    assert_eq!(k.get(), Some(&5));
    k.finish_pull(None);
    assert_eq!(k.get(), None);
}

#[test]
fn default_value_is_published() {
    let mut k: Key<PowerType, false, true> =
        Key::new("sut_power_type").with_default(PowerType::Psu);
    assert_eq!(k.get(), Some(&PowerType::Psu));
    assert_eq!(k.begin_sync(), SyncOp::Pull);
}

#[test]
fn key_holds_desired_value() {
    let mut k: Key<bool, true, true> = Key::new("power/on");
    assert!(k.holds(None));
    assert!(!k.holds(Some(true)));
    k.set(true);
    assert!(k.holds(Some(true)));
    assert!(!k.holds(Some(false)));
    assert!(!k.holds(None));
}
