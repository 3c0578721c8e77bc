use radarsync::device::{DeviceClient, MimeName};
use radarsync::model::{Device, DeviceInfo};

fn client() -> DeviceClient {
    let info = DeviceInfo {
        device_name: "iPhone".to_string(),
        known_file_extensions: vec!["mp3".to_string(), "flac".to_string()],
        supported_mimetypes: vec!["audio/mpeg".to_string(), "audio/x-flac".to_string()],
        app_name: "Doppler".to_string(),
        app_version: 42,
    };
    DeviceClient::new("http://192.168.1.9:8080/".to_string(), info, None)
}

fn mime(t: &str, s: &str) -> MimeName {
    MimeName { essence: format!("{t}/{s}"), type_: t.to_string(), subtype: s.to_string() }
}

#[test]
fn mime_supported_directly() {
    assert!(client().mime_supported(&mime("audio", "mpeg")));
}

#[test]
fn mime_supported_in_x_form() {
    assert!(client().mime_supported(&mime("audio", "flac")));
}

#[test]
fn mime_not_supported() {
    let c = client();
    assert!(!c.mime_supported(&mime("audio", "ogg")));
    assert!(!c.mime_supported(&mime("video", "mpeg")));
}

#[test]
fn first_supported_mime_is_picked() {
    let c = client();
    let cands = vec![mime("audio", "ogg"), mime("audio", "flac"), mime("audio", "mpeg")];
    assert_eq!(c.find_supported_mime(&cands), Some(1));
    assert_eq!(c.find_supported_mime(&vec![mime("text", "plain")]), None);
}

#[test]
fn extensions() {
    let c = client();
    assert!(c.extension_supported(Some("flac")));
    assert!(!c.extension_supported(Some("ogg")));
    assert!(!c.extension_supported(None));
    assert_eq!(c.supported_extensions().len(), 2);
    assert_eq!(c.supported_mimetypes()[0], "audio/mpeg");
    assert_eq!(c.base_uri(), "http://192.168.1.9:8080/");
    assert!(c.push_token().is_none());
}

#[test]
fn push_token_is_kept() {
    let info = DeviceInfo {
        device_name: String::new(),
        known_file_extensions: Vec::new(),
        supported_mimetypes: Vec::new(),
        app_name: String::new(),
        app_version: 1,
    };
    let tok = Device { name: Some("phone".to_string()), id: Some("id1".to_string()), user: "u".to_string(), device: "d".to_string() };
    let c = DeviceClient::new("http://h/".to_string(), info, Some(tok));
    assert_eq!(c.push_token().unwrap().id.as_deref(), Some("id1"));
    assert_eq!(c.token_to_save(false).unwrap().user, "u");
    assert!(c.token_to_save(true).is_none());
    assert!(client().token_to_save(false).is_none());
}
