use trezor_api::cli::{Args, Commands, DeviceChoice, LevelFilter};

#[test]
fn list_needs_no_device() {
    assert!(!Commands::List.needs_device());
    assert!(Commands::Info.needs_device());
    assert!(Commands::SetPin.needs_device());
    assert!(Commands::External(vec!["btc".to_string()]).needs_device());
}

#[test]
fn choose_device_by_index() {
    let a = Args::new(Commands::Info, 1, false, LevelFilter::Debug);
    assert_eq!(a.index(), 1);
    assert!(!a.trezor_debug());
    assert_eq!(a.choose_device(0), DeviceChoice::NoDevices);
    assert_eq!(a.choose_device(1), DeviceChoice::IndexOutOfRange);
    assert_eq!(a.choose_device(2), DeviceChoice::Use(1));
}
