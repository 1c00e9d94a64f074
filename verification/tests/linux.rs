use volumecontrol::linux::{sink_mute, sink_volume, AudioDevice, SinkSnapshot};
use volumecontrol::AudioDevice as AudioDeviceTrait;
use volumecontrol::AudioError;

fn snapshot(name: &str, description: &str, volume: u8, mute: bool) -> SinkSnapshot {
    SinkSnapshot {
        name: name.to_string(),
        description: description.to_string(),
        volume,
        mute,
    }
}

#[test]
fn default_returns_unsupported_without_feature() {
    let result = AudioDevice::default();
    assert!(result.is_err());
    assert!(matches!(result.unwrap_err(), AudioError::Unsupported));
}

#[test]
fn from_id_returns_unsupported_without_feature() {
    let result = AudioDevice::from_id("test-id");
    assert!(result.is_err());
    assert!(matches!(result.unwrap_err(), AudioError::Unsupported));
}

#[test]
fn from_name_returns_unsupported_without_feature() {
    let result = AudioDevice::from_name("test-name");
    assert!(result.is_err());
    assert!(matches!(result.unwrap_err(), AudioError::Unsupported));
}

#[test]
fn list_returns_unsupported_without_feature() {
    let result = AudioDevice::list();
    assert!(result.is_err());
    assert!(matches!(result.unwrap_err(), AudioError::Unsupported));
}

#[test]
fn self_methods_return_unsupported_without_feature() {
    let device = AudioDevice::from_sink(Ok(snapshot("", "", 0, false))).unwrap();
    assert!(matches!(device.get_vol().unwrap_err(), AudioError::Unsupported));
    assert!(matches!(device.set_vol(50).unwrap_err(), AudioError::Unsupported));
    assert!(matches!(device.is_mute().unwrap_err(), AudioError::Unsupported));
    assert!(matches!(device.set_mute(false).unwrap_err(), AudioError::Unsupported));
}

#[test]
fn device_from_sink_takes_name_and_description() {
    let device = AudioDevice::from_sink(Ok(snapshot(
        "alsa_output.pci-0000_00_1f.3.analog-stereo",
        "Built-in Audio Analog Stereo",
        40,
        false,
    )))
    .unwrap();
    assert_eq!(device.id(), "alsa_output.pci-0000_00_1f.3.analog-stereo");
    assert_eq!(device.name(), "Built-in Audio Analog Stereo");
}

#[test]
fn device_from_failed_sink_lookup_passes_error() {
    let result = AudioDevice::from_sink(Err(AudioError::DeviceNotFound));
    assert!(matches!(result.unwrap_err(), AudioError::DeviceNotFound));
    let result = AudioDevice::from_sink(Err(AudioError::InitializationFailed("no server".to_string())));
    match result.unwrap_err() {
        AudioError::InitializationFailed(msg) => assert_eq!(msg, "no server"),
        other => panic!("unexpected error {other:?}"),
    }
}

#[test]
fn sink_volume_and_mute_read_the_snapshot() {
    assert_eq!(sink_volume(Ok(snapshot("a", "b", 73, true))).unwrap(), 73);
    assert!(sink_mute(Ok(snapshot("a", "b", 73, true))).unwrap());
    assert!(!sink_mute(Ok(snapshot("a", "b", 0, false))).unwrap());
    assert!(matches!(
        sink_volume(Err(AudioError::DeviceNotFound)).unwrap_err(),
        AudioError::DeviceNotFound
    ));
    assert!(matches!(
        sink_mute(Err(AudioError::DeviceNotFound)).unwrap_err(),
        AudioError::DeviceNotFound
    ));
}
