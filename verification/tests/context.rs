use yusb::capability::{disable_device_discovery, Capability, UsbOption};
use yusb::context::{Context, EventWait, LogLevel, Timeout, Timeval};
use yusb::error::Error;
use yusb::version::LibraryVersion;

#[test]
fn is_global_context() {
    let ctx = Context::global();
    assert!(ctx.is_global());

    let ctx = Context::new(0, 0x7f00_1000).unwrap();
    assert!(!ctx.is_global());
}

#[test]
fn default_context_is_the_global_one() {
    assert_eq!(Context::default(), Context::global());
    assert!(Context::default().is_global());
    assert_eq!(Context::global().as_raw(), 0);
    assert_eq!(Context::from_raw(8).as_raw(), 8);
    assert_eq!(Context::from_raw(8), Context::from_raw(8).clone());
    assert_ne!(Context::from_raw(8), Context::from_raw(16));
}

#[test]
fn new_context_fails_with_the_native_error() {
    assert_eq!(Context::new(-1, 0), Err(Error::Io));
    assert_eq!(Context::new(-11, 0x10), Err(Error::NoMem));
    assert_eq!(Context::new(-99, 0), Err(Error::Other));
    assert_eq!(Context::new(5, 0x10), Err(Error::Other));
    assert_eq!(Context::new(0, 0x10), Ok(Context::from_raw(0x10)));
}

#[test]
fn new_context_is_never_the_global_one() {
    for raw in [1usize, 8, 0x7f00_1000, usize::MAX] {
        let ctx = Context::new(0, raw).unwrap();
        assert!(!ctx.is_global());
        assert_ne!(ctx, Context::global());
        assert_eq!(ctx.as_raw(), raw);
        let ctx = Context::with_options(0, raw, &[0, 0]).unwrap();
        assert!(!ctx.is_global());
    }
    assert!(Context::from_raw(0).is_global());
}

#[test]
fn with_options_returns_the_first_failure() {
    assert_eq!(Context::with_options(0, 0x10, &[]), Ok(Context::from_raw(0x10)));
    assert_eq!(Context::with_options(0, 0x10, &[0, 0, 0]), Ok(Context::from_raw(0x10)));
    assert_eq!(Context::with_options(0, 0x10, &[0, -12]), Err(Error::NotSupported));
    assert_eq!(Context::with_options(0, 0x10, &[-2, -12]), Err(Error::InvalidParam));
    assert_eq!(Context::with_options(0, 0x10, &[0, -5, 0, -2]), Err(Error::NotFound));
    assert_eq!(Context::with_options(-3, 0x10, &[]), Err(Error::Access));
    assert_eq!(Context::with_options(-3, 0x10, &[-2]), Err(Error::Access));
}

#[test]
fn handle_events_maps_negative_values_only() {
    let ctx = Context::from_raw(1);
    assert_eq!(ctx.handle_events(0), Ok(()));
    assert_eq!(ctx.handle_events(1), Ok(()));
    assert_eq!(ctx.handle_events(-10), Err(Error::Interrupted));
    assert_eq!(ctx.handle_events(-7), Err(Error::Timeout));
    assert_eq!(ctx.handle_events(-99), Err(Error::Other));
}

#[test]
fn event_wait_converts_the_timeout() {
    assert_eq!(Context::event_wait(None), EventWait::Blocking);
    assert_eq!(
        Context::event_wait(Some(Timeout { secs: 3, subsec_nanos: 250_000_999 })),
        EventWait::Timed(Timeval { tv_sec: 3, tv_usec: 250_000 })
    );
    assert_eq!(
        Context::event_wait(Some(Timeout { secs: 0, subsec_nanos: 1000 })),
        EventWait::Timed(Timeval { tv_sec: 0, tv_usec: 1 })
    );
}

#[test]
fn timeout_under_a_microsecond_does_not_block() {
    for nanos in [0u32, 1, 500, 999] {
        assert_eq!(
            Context::event_wait(Some(Timeout { secs: 0, subsec_nanos: nanos })),
            EventWait::Timed(Timeval { tv_sec: 0, tv_usec: 0 })
        );
    }
}

#[test]
fn timeout_seconds_wrap_like_a_cast() {
    for secs in [0u64, 1, i64::MAX as u64, i64::MAX as u64 + 1, u64::MAX - 1, u64::MAX] {
        assert_eq!(
            yusb::context::timeval_from(Timeout { secs, subsec_nanos: 999_999_999 }),
            Timeval { tv_sec: secs as i64, tv_usec: 999_999 }
        );
    }
}

#[test]
fn next_timeout_reads_the_native_answer() {
    let ctx = Context::global();
    let tv = Timeval { tv_sec: 2, tv_usec: 500_000 };
    assert_eq!(ctx.next_timeout(0, tv), Ok(None));
    assert_eq!(
        ctx.next_timeout(1, tv),
        Ok(Some(Timeout { secs: 2, subsec_nanos: 500_000_000 }))
    );
    assert_eq!(
        ctx.next_timeout(1, Timeval { tv_sec: 0, tv_usec: 999_999 }),
        Ok(Some(Timeout { secs: 0, subsec_nanos: 999_999_000 }))
    );
    assert_eq!(ctx.next_timeout(-1, tv), Err(Error::Io));
    assert!(tv.is_normal());
    assert!(Timeval { tv_sec: 0, tv_usec: 0 }.is_normal());
    assert!(!Timeval { tv_sec: 0, tv_usec: 1_000_000 }.is_normal());
    assert!(!Timeval { tv_sec: -1, tv_usec: 0 }.is_normal());
    assert!(!Timeval { tv_sec: 0, tv_usec: -1 }.is_normal());
    assert_eq!(ctx.next_timeout(-99, Timeval { tv_sec: -1, tv_usec: -1 }), Err(Error::Other));
}

#[test]
fn log_levels_map_onto_native_constants() {
    assert_eq!(LogLevel::Off.as_c_int(), 0);
    assert_eq!(LogLevel::Error.as_c_int(), 1);
    assert_eq!(LogLevel::Warning.as_c_int(), 2);
    assert_eq!(LogLevel::Info.as_c_int(), 3);
    assert_eq!(LogLevel::Debug.as_c_int(), 4);
    assert!(LogLevel::Off < LogLevel::Error);
    assert!(LogLevel::Error < LogLevel::Warning);
    assert!(LogLevel::Warning < LogLevel::Info);
    assert!(LogLevel::Info < LogLevel::Debug);
    assert_eq!(Context::global().set_log_level(LogLevel::Info), 3);
}

#[test]
fn open_by_ids_is_lossy() {
    let ctx = Context::from_raw(0x40);
    assert!(ctx.open_device_with_vid_pid(0).is_none());
    let handle = ctx.open_device_with_vid_pid(0x9000).unwrap();
    assert_eq!(handle.as_raw(), 0x9000);
    assert_eq!(handle.context(), &ctx);
}

#[test]
fn open_by_descriptor_reports_missing_handle_as_no_device() {
    let ctx = Context::from_raw(0x40);
    assert_eq!(ctx.open_device_with_fd(0, 0), Err(Error::NoDevice));
    assert_eq!(ctx.open_device_with_fd(-3, 0), Err(Error::Access));
    assert_eq!(ctx.open_device_with_fd(-3, 0x9000), Err(Error::Access));
    assert_eq!(ctx.open_device_with_fd(1, 0x9000), Err(Error::Other));
    let handle = ctx.open_device_with_fd(0, 0x9000).unwrap();
    assert_eq!((handle.as_raw(), *handle.context()), (0x9000, ctx));
}

#[test]
fn capabilities_have_native_flags() {
    assert_eq!(Capability::HasCapability.flag(), 0x0000);
    assert_eq!(Capability::HasHotplug.flag(), 0x0001);
    assert_eq!(Capability::HasHidAccess.flag(), 0x0100);
    assert_eq!(Capability::SupportsDetachKernelDriver.flag(), 0x0101);
    assert!(Capability::is_supported(1));
    assert!(Capability::is_supported(-1));
    assert!(!Capability::is_supported(0));
}

#[test]
fn options_have_codes_and_platforms() {
    assert_eq!(UsbOption::use_usbdk(), UsbOption::UseUsbdk);
    assert_eq!(UsbOption::UseUsbdk.code(), 1);
    assert_eq!(UsbOption::NoDeviceDiscovery.code(), 2);
    assert!(UsbOption::UseUsbdk.available(true));
    assert!(!UsbOption::UseUsbdk.available(false));
    assert!(UsbOption::NoDeviceDiscovery.available(false));
    assert!(!UsbOption::NoDeviceDiscovery.available(true));
    assert!(UsbOption::NoDeviceDiscovery.before_init());
    assert!(!UsbOption::UseUsbdk.before_init());
    assert_eq!(UsbOption::UseUsbdk.apply(0), Ok(()));
    assert_eq!(UsbOption::UseUsbdk.apply(-12), Err(Error::NotSupported));
    assert_eq!(UsbOption::UseUsbdk.apply(-5), Err(Error::NotFound));
    assert_eq!(disable_device_discovery(0), Ok(()));
    assert_eq!(disable_device_discovery(-2), Err(Error::InvalidParam));
}

#[test]
fn library_version_snapshot() {
    let v = LibraryVersion::new(1, 0, 26, 11724, String::from("-rc4"));
    assert_eq!((v.major(), v.minor(), v.micro(), v.nano()), (1, 0, 26, 11724));
    assert_eq!(v.rc(), Some("-rc4"));
    let v = LibraryVersion::new(1, 0, 26, 11724, String::new());
    assert_eq!(v.rc(), None);
}
