use radarsync::model::{Device, DeviceResponse};

#[test]
fn request_form_clears_name_and_id() {
    let d = Device {
        name: Some("Kitchen iPad".to_string()),
        id: Some("5F2A".to_string()),
        user: "u-\u{e9}\u{1F600}-key".to_string(),
        device: "d-key".to_string(),
    };
    let r = d.for_request();
    assert!(r.name.is_none());
    assert!(r.id.is_none());
    assert_eq!(r.user.as_bytes(), d.user.as_bytes());
    assert_eq!(r.device.as_bytes(), d.device.as_bytes());
}

#[test]
fn candidate_id() {
    let c = DeviceResponse::new("ios".to_string(), "XYZ".to_string());
    assert_eq!(c.id(), "XYZ");
    assert!(c.is_saved.is_none());
}
