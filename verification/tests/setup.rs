use bluefang_player::bluetooth::{
    initialize_hci, setup_progress, DeviceClass, DownloadFileProvider, FetchedFile, FileAccess,
    MajorServiceClass, SetupProgress, SetupStep, UsbDevice,
};
use bluefang_player::config::{AppSettings, FULL_VOLUME};

fn usb(vendor_id: u16, product_id: u16) -> UsbDevice {
    UsbDevice { vendor_id, product_id }
}

#[test]
fn the_first_controller_will_do() {
    let steps = initialize_hci(None, &[usb(1, 2), usb(3, 4)]).unwrap();
    assert_eq!(
        steps,
        vec![
            SetupStep::Claim(0),
            SetupStep::ReadAddress,
            SetupStep::SetSimplePairingSupport(true),
            SetupStep::WriteLocalName("bluefang"),
            SetupStep::WriteClassOfDevice {
                services: vec![MajorServiceClass::Audio, MajorServiceClass::Rendering],
                class: DeviceClass::WearableHeadset,
            },
        ]
    );
}

#[test]
fn the_controller_that_was_asked_for_is_taken() {
    let found = [usb(1, 2), usb(3, 2), usb(3, 4), usb(3, 4)];
    assert_eq!(initialize_hci(Some((3, 4)), &found).unwrap()[0], SetupStep::Claim(2));
}

#[test]
fn no_controller_is_an_error() {
    let error = Err("No compatible USB controller found".to_string());
    assert_eq!(initialize_hci(None, &[]), error);
    assert_eq!(initialize_hci(Some((1, 1)), &[usb(1, 2), usb(2, 1)]), error);
}

#[test]
fn files() {
    let provider = DownloadFileProvider {
        base_url: "https://example.org/fw".to_string(),
        cache: "/tmp/cache".into(),
    };
    let download = provider.get_file("a.bin", false);
    assert_eq!(
        download,
        FileAccess::Download { url: "https://example.org/fw/a.bin".to_string() }
    );
    let read = provider.get_file("a.bin", true);
    assert_eq!(read, FileAccess::ReadCached);
    assert_eq!(
        download.finish(Some(vec![1])),
        FetchedFile { bytes: Some(vec![1]), store: true }
    );
    assert_eq!(download.finish(None), FetchedFile { bytes: None, store: false });
    assert_eq!(read.finish(Some(vec![1])), FetchedFile { bytes: Some(vec![1]), store: false });
}

#[test]
fn settings() {
    let default = AppSettings::default();
    assert_eq!(default.bluetooth_adapter, None);
    assert_eq!(f32::from_bits(default.volume_multiplier), 1.0f32);
    assert_eq!(FULL_VOLUME, 1.0f32.to_bits());
    assert!(!default.hci_dump_enabled);
    assert_eq!(default.log_level, "info");
    assert_eq!(AppSettings::load(None), (AppSettings::default(), Some(AppSettings::default())));
    let stored = || AppSettings { log_level: "debug".to_string(), ..AppSettings::default() };
    assert_eq!(AppSettings::load(Some(stored())), (stored(), None));
}

#[test]
fn a_step_follows_only_a_success() {
    let steps = initialize_hci(None, &[usb(1, 2)]).unwrap();
    for taken in 0..4 {
        assert_eq!(setup_progress(&steps, taken, Ok(())), SetupProgress::Take(taken + 1));
    }
    assert_eq!(setup_progress(&steps, 4, Ok(())), SetupProgress::Up);
    for taken in 0..5 {
        assert_eq!(
            setup_progress(&steps, taken, Err("no".to_string())),
            SetupProgress::Failed("no".to_string())
        );
    }
}

#[test]
fn settings_are_cloned_whole() {
    let settings = AppSettings {
        bluetooth_adapter: Some((1, 2)),
        volume_multiplier: 0.5f32.to_bits(),
        hci_dump_enabled: true,
        log_level: "trace".to_string(),
    };
    assert_eq!(settings.clone(), settings);
}
