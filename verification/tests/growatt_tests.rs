use growatt::Growatt;
use growatt::JsonValue;
use growatt::{Plant, PlantData, PlantList};

#[test]
fn test_new_client() {
    let client = Growatt::new();
    assert_eq!(client.base_url, "https://server.growatt.com");
    assert_eq!(client.is_logged_in, false);
    assert!(client.username.is_none());
    assert!(client.password.is_none());
    assert!(client.session_expiry.is_none());
    assert!(client.token.is_none());
    // Check session duration is 30 minutes
    assert_eq!(client.session_duration_minutes, 30);
}

#[test]
fn test_with_alternate_url() {
    let client = Growatt::new().with_alternate_url();
    assert_eq!(client.base_url, "https://openapi.growatt.com");
}

#[test]
fn test_with_session_duration() {
    let client = Growatt::new().with_session_duration(60);
    assert_eq!(client.session_duration_minutes, 60);
}

#[test]
fn test_hash_password() {
    let client = Growatt::new();
    let password = "testpassword";
    let hash = client.hash_password(password);
    // MD5 of "testpassword" is "e16b2ab8d12314bf4efbd6203906ea6c"
    assert_eq!(hash, "e16b2ab8d12314bf4efbd6203906ea6c");
}

#[test]
fn test_is_session_valid() {
    let mut client = Growatt::new();

    // Session should be invalid by default
    assert!(!client.is_session_valid());

    // Set session to expire in the future
    let now = chrono::Utc::now().timestamp_millis();
    client.session_expiry = Some(now + 3_600_000);
    assert!(client.is_session_valid());

    // Set session to expire in the past
    client.session_expiry = Some(now - 3_600_000);
    assert!(!client.is_session_valid());
}

#[test]
fn test_plant_structs() {
    let record = JsonValue::Object(vec![
        ("id".to_string(), JsonValue::Str("12345".to_string())),
        ("name".to_string(), JsonValue::Str("Test Plant".to_string())),
        (
            "plantAddress".to_string(),
            JsonValue::Str("123 Test St".to_string()),
        ),
        ("plantPower".to_string(), JsonValue::Number("5000.0".to_string())),
        ("isShare".to_string(), JsonValue::Boolean(false)),
    ]);

    let plant = growatt::plants::decode_plant(&record).unwrap();

    assert_eq!(plant.plant_id, "12345");
    assert_eq!(plant.plant_name, "Test Plant");
    assert_eq!(plant.plant_address, Some("123 Test St".to_string()));
    assert_eq!(
        plant.plant_watts.as_deref().map(|w| w.parse::<f64>().unwrap()),
        Some(5000.0)
    );
    assert_eq!(plant.is_share, Some(false));
}

#[test]
fn test_plant_list() {
    let plant1 = Plant {
        plant_id: "1".to_string(),
        plant_name: "Plant 1".to_string(),
        plant_address: Some("Address 1".to_string()),
        plant_watts: Some("1000.0".to_string()),
        is_share: Some(false),
    };

    let plant2 = Plant {
        plant_id: "2".to_string(),
        plant_name: "Plant 2".to_string(),
        plant_address: Some("Address 2".to_string()),
        plant_watts: Some("2000.0".to_string()),
        is_share: Some(true),
    };

    let plant_list = PlantList(vec![plant1, plant2]);

    assert_eq!(plant_list.0.len(), 2);
    assert_eq!(plant_list.0[0].plant_id, "1");
    assert_eq!(plant_list.0[1].plant_id, "2");
}

#[test]
fn test_plant_data_struct() {
    let record = JsonValue::Object(vec![
        ("plantName".to_string(), JsonValue::Str("Test Plant".to_string())),
        ("plantId".to_string(), JsonValue::Str("12345".to_string())),
        ("capacity".to_string(), JsonValue::Number("5000.0".to_string())),
        ("todayEnergy".to_string(), JsonValue::Number("23.5".to_string())),
        ("totalEnergy".to_string(), JsonValue::Number("1234.5".to_string())),
        ("currentPower".to_string(), JsonValue::Number("4500.0".to_string())),
    ]);

    let plant_data: PlantData = growatt::plants::decode_plant_data(&record).unwrap();

    let as_f64 = |v: &Option<String>| v.as_deref().map(|s| s.parse::<f64>().unwrap());
    assert_eq!(plant_data.plant_name, Some("Test Plant".to_string()));
    assert_eq!(plant_data.plant_id, Some("12345".to_string()));
    assert_eq!(as_f64(&plant_data.capacity), Some(5000.0));
    assert_eq!(as_f64(&plant_data.today_energy), Some(23.5));
    assert_eq!(as_f64(&plant_data.total_energy), Some(1234.5));
    assert_eq!(as_f64(&plant_data.current_power), Some(4500.0));
}
