use volumecontrol::wasapi::com::{
    call_failure, ComCall, ComError, ComGuard, AUDCLNT_E_DEVICE_INVALIDATED,
    HRESULT_ERROR_FILE_NOT_FOUND, HRESULT_ERROR_NOT_FOUND, RPC_E_CHANGED_MODE,
};
use volumecontrol::wasapi::wide::wide_null;
use volumecontrol::wasapi::{clamp_volume, AudioDevice};
use volumecontrol::AudioDevice as AudioDeviceTrait;
use volumecontrol::AudioError;

fn stub_device() -> AudioDevice {
    AudioDevice::from_endpoint(String::from("stub-id"), String::from("stub-name"))
}

#[test]
fn wasapi_default_returns_unsupported_without_feature() {
    let result = AudioDevice::default();
    assert!(result.is_err());
    assert!(matches!(result.unwrap_err(), AudioError::Unsupported));
}

#[test]
fn wasapi_from_id_returns_unsupported_without_feature() {
    let result = AudioDevice::from_id("test-id");
    assert!(result.is_err());
    assert!(matches!(result.unwrap_err(), AudioError::Unsupported));
}

#[test]
fn wasapi_from_name_returns_unsupported_without_feature() {
    let result = AudioDevice::from_name("test-name");
    assert!(result.is_err());
    assert!(matches!(result.unwrap_err(), AudioError::Unsupported));
}

#[test]
fn wasapi_list_returns_unsupported_without_feature() {
    let result = AudioDevice::list();
    assert!(result.is_err());
    assert!(matches!(result.unwrap_err(), AudioError::Unsupported));
}

#[test]
fn get_vol_returns_unsupported_without_feature() {
    let device = stub_device();
    let result = device.get_vol();
    assert!(result.is_err());
    assert!(matches!(result.unwrap_err(), AudioError::Unsupported));
}

#[test]
fn set_vol_returns_unsupported_without_feature() {
    let device = stub_device();
    let result = device.set_vol(50);
    assert!(result.is_err());
    assert!(matches!(result.unwrap_err(), AudioError::Unsupported));
}

#[test]
fn is_mute_returns_unsupported_without_feature() {
    let device = stub_device();
    let result = device.is_mute();
    assert!(result.is_err());
    assert!(matches!(result.unwrap_err(), AudioError::Unsupported));
}

#[test]
fn set_mute_returns_unsupported_without_feature() {
    let device = stub_device();
    let result = device.set_mute(true);
    assert!(result.is_err());
    assert!(matches!(result.unwrap_err(), AudioError::Unsupported));
}

#[test]
fn from_endpoint_keeps_id_and_name() {
    let device = stub_device();
    assert_eq!(device.id(), "stub-id");
    assert_eq!(device.name(), "stub-name");
}

fn devices() -> Vec<(String, String)> {
    vec![
        ("{0.0.0.00000000}.{aaa}".to_string(), "Speakers (Realtek High Definition Audio)".to_string()),
        ("{0.0.0.00000000}.{bbb}".to_string(), "Headphones (USB Audio)".to_string()),
        ("{0.0.0.00000000}.{ccc}".to_string(), "SPEAKERS (Monitor)".to_string()),
    ]
}

#[test]
fn select_by_name_ignores_case_and_takes_first() {
    let d = AudioDevice::select_by_name(devices(), "speakers").unwrap();
    assert_eq!(d.id(), "{0.0.0.00000000}.{aaa}");
    assert_eq!(d.name(), "Speakers (Realtek High Definition Audio)");
    let d = AudioDevice::select_by_name(devices(), "USB").unwrap();
    assert_eq!(d.id(), "{0.0.0.00000000}.{bbb}");
    let d = AudioDevice::select_by_name(devices(), "MONITOR").unwrap();
    assert_eq!(d.id(), "{0.0.0.00000000}.{ccc}");
    let d = AudioDevice::select_by_name(devices(), "").unwrap();
    assert_eq!(d.id(), "{0.0.0.00000000}.{aaa}");
}

#[test]
fn select_by_name_without_match_is_device_not_found() {
    assert!(matches!(
        AudioDevice::select_by_name(devices(), "HDMI").unwrap_err(),
        AudioError::DeviceNotFound
    ));
    assert!(matches!(
        AudioDevice::select_by_name(Vec::new(), "Speakers").unwrap_err(),
        AudioError::DeviceNotFound
    ));
}

#[test]
fn clamp_volume_limits_to_hundred() {
    assert_eq!(clamp_volume(0), 0);
    assert_eq!(clamp_volume(50), 50);
    assert_eq!(clamp_volume(100), 100);
    assert_eq!(clamp_volume(101), 100);
    assert_eq!(clamp_volume(255), 100);
}

#[test]
fn wide_null_is_utf16_with_terminator() {
    assert_eq!(wide_null(""), vec![0u16]);
    assert_eq!(wide_null("ab"), vec![0x61u16, 0x62, 0]);
    for s in ["{0.0.0.00000000}.{aaa}", "héllo", "€", "a😀b", "日本"] {
        let mut expected: Vec<u16> = s.encode_utf16().collect();
        expected.push(0);
        assert_eq!(wide_null(s), expected, "input {s:?}");
    }
    assert_eq!(wide_null("😀"), vec![0xD83D, 0xDE00, 0]);
}

fn failure(call: ComCall, code: i32) -> AudioError {
    call_failure(call, ComError { code, message: "boom".to_string() })
}

#[test]
fn device_lookup_maps_missing_device_codes() {
    for code in [HRESULT_ERROR_NOT_FOUND, HRESULT_ERROR_FILE_NOT_FOUND, AUDCLNT_E_DEVICE_INVALIDATED] {
        assert!(matches!(failure(ComCall::DeviceById, code), AudioError::DeviceNotFound));
    }
    assert_eq!(HRESULT_ERROR_NOT_FOUND as u32, 0x80070490);
    assert_eq!(HRESULT_ERROR_FILE_NOT_FOUND as u32, 0x80070002);
    assert_eq!(AUDCLNT_E_DEVICE_INVALIDATED as u32, 0x88890004);
    match failure(ComCall::DeviceById, 0x80004005u32 as i32) {
        AudioError::InitializationFailed(msg) => assert_eq!(msg, "boom"),
        other => panic!("unexpected error {other:?}"),
    }
}

#[test]
fn call_failures_map_to_documented_errors() {
    let code = 0x80004005u32 as i32;
    assert!(matches!(failure(ComCall::EnumerateDevices, code), AudioError::ListFailed(_)));
    assert!(matches!(failure(ComCall::CountDevices, code), AudioError::ListFailed(_)));
    assert!(matches!(failure(ComCall::CollectionItem, code), AudioError::ListFailed(_)));
    assert!(matches!(failure(ComCall::GetVolume, code), AudioError::GetVolumeFailed(_)));
    assert!(matches!(failure(ComCall::SetVolume, code), AudioError::SetVolumeFailed(_)));
    assert!(matches!(failure(ComCall::GetMute, code), AudioError::GetMuteFailed(_)));
    assert!(matches!(failure(ComCall::SetMute, code), AudioError::SetMuteFailed(_)));
    assert!(matches!(failure(ComCall::CreateEnumerator, code), AudioError::InitializationFailed(_)));
    assert!(matches!(failure(ComCall::DefaultDevice, code), AudioError::InitializationFailed(_)));
    assert!(matches!(failure(ComCall::DeviceId, code), AudioError::InitializationFailed(_)));
    assert!(matches!(failure(ComCall::DeviceName, code), AudioError::InitializationFailed(_)));
    assert!(matches!(failure(ComCall::EndpointVolume, code), AudioError::InitializationFailed(_)));
    // A missing-device code means a missing device only for a lookup by identifier.
    assert!(matches!(failure(ComCall::GetVolume, HRESULT_ERROR_NOT_FOUND), AudioError::GetVolumeFailed(_)));
    assert!(matches!(failure(ComCall::DefaultDevice, HRESULT_ERROR_NOT_FOUND), AudioError::InitializationFailed(_)));
}

#[test]
fn com_guard_owns_only_its_own_initialisation() {
    let guard = ComGuard::from_init_result(Ok(())).unwrap();
    assert!(guard.must_uninitialize());
    assert_eq!(RPC_E_CHANGED_MODE as u32, 0x80010106);
    let guard = ComGuard::from_init_result(Err(ComError {
        code: RPC_E_CHANGED_MODE,
        message: "changed mode".to_string(),
    }))
    .unwrap();
    assert!(!guard.must_uninitialize());
    match ComGuard::from_init_result(Err(ComError { code: 0x8007000Eu32 as i32, message: "out of memory".to_string() })) {
        Err(AudioError::InitializationFailed(msg)) => assert_eq!(msg, "out of memory"),
        _ => panic!("expected InitializationFailed"),
    }
}

use volumecontrol::wasapi::listing::{EndpointListing, EndpointStep};

fn run_endpoint_listing(
    count: Result<u32, AudioError>,
    endpoints: &[Result<(&str, &str), &str>],
) -> (Result<Vec<(String, String)>, AudioError>, Vec<u32>) {
    let mut read = Vec::new();
    let mut step = EndpointListing::start(count);
    loop {
        match step {
            EndpointStep::Read(listing, i) => {
                read.push(i);
                let entry = match endpoints[i as usize] {
                    Ok((id, name)) => Ok((id.to_string(), name.to_string())),
                    Err(msg) => Err(AudioError::ListFailed(msg.to_string())),
                };
                step = listing.on_endpoint(entry);
            }
            EndpointStep::Done(result) => return (result, read),
        }
    }
}

#[test]
fn endpoint_listing_reads_every_position_in_order() {
    let endpoints = [Ok(("{a}", "Speakers")), Ok(("{b}", "Headphones")), Ok(("{c}", "HDMI"))];
    let (result, read) = run_endpoint_listing(Ok(3), &endpoints);
    assert_eq!(read, vec![0, 1, 2]);
    assert_eq!(
        result.unwrap(),
        vec![
            ("{a}".to_string(), "Speakers".to_string()),
            ("{b}".to_string(), "Headphones".to_string()),
            ("{c}".to_string(), "HDMI".to_string()),
        ]
    );
    let (result, read) = run_endpoint_listing(Ok(0), &endpoints);
    assert!(read.is_empty());
    assert!(result.unwrap().is_empty());
}

#[test]
fn endpoint_listing_stops_at_first_failure() {
    let endpoints = [Ok(("{a}", "Speakers")), Err("item 1"), Ok(("{c}", "HDMI"))];
    let (result, read) = run_endpoint_listing(Ok(3), &endpoints);
    assert_eq!(read, vec![0, 1]);
    match result.unwrap_err() {
        AudioError::ListFailed(msg) => assert_eq!(msg, "item 1"),
        other => panic!("unexpected error {other:?}"),
    }
    let (result, read) = run_endpoint_listing(Err(AudioError::ListFailed("count".to_string())), &endpoints);
    assert!(read.is_empty());
    assert!(matches!(result.unwrap_err(), AudioError::ListFailed(_)));
}

use volumecontrol::wasapi::{first_containing, mute_from_win32, mute_to_win32};

#[test]
fn first_containing_takes_first_lowered_match() {
    let names = vec!["speakers (realtek)".to_string(), "usb speakers".to_string(), "hdmi".to_string()];
    assert_eq!(first_containing(&names, "speakers"), Some(0));
    assert_eq!(first_containing(&names, "usb"), Some(1));
    assert_eq!(first_containing(&names, "hdmi"), Some(2));
    assert_eq!(first_containing(&names, "SPEAKERS"), None);
    assert_eq!(first_containing(&names, ""), Some(0));
    assert_eq!(first_containing(&Vec::new(), ""), None);
}

#[test]
fn uppercase_text_finds_usb_speakers() {
    let devices = vec![
        ("{a}".to_string(), "Headphones".to_string()),
        ("{b}".to_string(), "USB Speakers".to_string()),
    ];
    let d = AudioDevice::select_by_name(devices, "SPEAKERS").unwrap();
    assert_eq!(d.id(), "{b}");
    assert_eq!(d.name(), "USB Speakers");
}

#[test]
fn find_in_listing_turns_listing_failure_into_lookup_failure() {
    match AudioDevice::find_in_listing(Err(AudioError::ListFailed("enum failed".to_string())), "x") {
        Err(AudioError::InitializationFailed(msg)) => assert_eq!(msg, "enum failed"),
        other => panic!("unexpected {other:?}"),
    }
    match AudioDevice::find_in_listing(Err(AudioError::InitializationFailed("no com".to_string())), "x") {
        Err(AudioError::InitializationFailed(msg)) => assert_eq!(msg, "no com"),
        other => panic!("unexpected {other:?}"),
    }
    let d = AudioDevice::find_in_listing(Ok(devices()), "usb audio").unwrap();
    assert_eq!(d.id(), "{0.0.0.00000000}.{bbb}");
    assert!(matches!(
        AudioDevice::find_in_listing(Ok(devices()), "HDMI").unwrap_err(),
        AudioError::DeviceNotFound
    ));
}

#[test]
fn mute_state_win32_values() {
    assert!(!mute_from_win32(0));
    assert!(mute_from_win32(1));
    assert!(mute_from_win32(-1));
    assert!(mute_from_win32(2));
    assert_eq!(mute_to_win32(true), 1);
    assert_eq!(mute_to_win32(false), 0);
}
