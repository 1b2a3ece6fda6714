use herb_backend::record::{AddHerbRequest, Herb, UpdateHerbRequest};
use herb_backend::time::Timestamp;

fn request(name: &str, farmer: &str, location: &str) -> AddHerbRequest {
    AddHerbRequest {
        name: name.to_string(),
        farmer: farmer.to_string(),
        location: location.to_string(),
    }
}

fn sample() -> Herb {
    Herb {
        id: "herb_abc123".to_string(),
        name: "Tulsi".to_string(),
        farmer: "Asha".to_string(),
        location: "Kerala".to_string(),
        created_at: Timestamp::new(1_700_000_000, 0).unwrap(),
    }
}

fn change(name: Option<&str>, farmer: Option<&str>, location: Option<&str>) -> UpdateHerbRequest {
    UpdateHerbRequest {
        name: name.map(String::from),
        farmer: farmer.map(String::from),
        location: location.map(String::from),
    }
}

#[test]
fn a_plain_payload_is_accepted() {
    assert_eq!(request("Tulsi", "Asha", "Kerala").validate(), Ok(()));
}

#[test]
fn fields_at_their_limits_are_accepted() {
    let name = "n".repeat(100);
    let farmer = "f".repeat(100);
    let location = "l".repeat(200);
    assert_eq!(request(&name, &farmer, &location).validate(), Ok(()));
}

#[test]
fn a_name_of_101_characters_is_rejected() {
    let name = "n".repeat(101);
    assert_eq!(
        request(&name, "Asha", "Kerala").validate(),
        Err("name too long (max 100)".to_string())
    );
}

#[test]
fn a_farmer_of_101_characters_is_rejected() {
    let farmer = "f".repeat(101);
    assert_eq!(
        request("Tulsi", &farmer, "Kerala").validate(),
        Err("farmer too long (max 100)".to_string())
    );
}

#[test]
fn a_location_of_201_characters_is_rejected() {
    let location = "l".repeat(201);
    assert_eq!(
        request("Tulsi", "Asha", &location).validate(),
        Err("location too long (max 200)".to_string())
    );
    let location = "l".repeat(101);
    assert_eq!(request("Tulsi", "Asha", &location).validate(), Ok(()));
}

#[test]
fn empty_fields_are_rejected() {
    assert_eq!(request("", "Asha", "Kerala").validate(), Err("name is required".to_string()));
    assert_eq!(request("Tulsi", "", "Kerala").validate(), Err("farmer is required".to_string()));
    assert_eq!(request("Tulsi", "Asha", "").validate(), Err("location is required".to_string()));
}

#[test]
fn fields_of_white_space_are_rejected() {
    assert_eq!(request("   ", "Asha", "Kerala").validate(), Err("name is required".to_string()));
    assert_eq!(
        request("Tulsi", "\t\n", "Kerala").validate(),
        Err("farmer is required".to_string())
    );
    assert_eq!(
        request("Tulsi", "Asha", "\u{A0}\u{3000} ").validate(),
        Err("location is required".to_string())
    );
}

#[test]
fn the_first_broken_rule_is_named() {
    let long = "x".repeat(300);
    assert_eq!(request("", "", "").validate(), Err("name is required".to_string()));
    assert_eq!(request(&long, "", "").validate(), Err("farmer is required".to_string()));
    assert_eq!(request(&long, &long, " ").validate(), Err("location is required".to_string()));
    assert_eq!(
        request(&long, &long, &long).validate(),
        Err("name too long (max 100)".to_string())
    );
    assert_eq!(
        request("n", &long, &long).validate(),
        Err("farmer too long (max 100)".to_string())
    );
}

#[test]
fn lengths_are_counted_in_characters() {
    let hundred = "é".repeat(100);
    let more = "é".repeat(101);
    assert_eq!(request(&hundred, "f", "l").validate(), Ok(()));
    assert_eq!(request("n", &hundred, "l").validate(), Ok(()));
    assert_eq!(request("n", "f", &"🌿".repeat(200)).validate(), Ok(()));
    assert_eq!(
        request(&more, "f", "l").validate(),
        Err("name too long (max 100)".to_string())
    );
    assert_eq!(
        request("n", &more, "l").validate(),
        Err("farmer too long (max 100)".to_string())
    );
    assert_eq!(
        request("n", "f", &"🌿".repeat(201)).validate(),
        Err("location too long (max 200)".to_string())
    );
}

#[test]
fn lengths_are_counted_after_trimming() {
    let padded = format!("  {}\t\n", "n".repeat(100));
    assert_eq!(request(&padded, "Asha", "Kerala").validate(), Ok(()));
    let trailing = format!("{} ", "n".repeat(100));
    assert_eq!(request(&trailing, "Asha", "Kerala").validate(), Ok(()));
    let location = format!("{}{}{}", " ".repeat(300), "l".repeat(200), "\u{3000}".repeat(50));
    assert_eq!(request("Tulsi", "Asha", &location).validate(), Ok(()));
    let inner = format!("{} {}", "n".repeat(50), "n".repeat(50));
    assert_eq!(
        request(&inner, "Asha", "Kerala").validate(),
        Err("name too long (max 100)".to_string())
    );
    let too_long = format!(" {} ", "n".repeat(101));
    assert_eq!(
        request(&too_long, "Asha", "Kerala").validate(),
        Err("name too long (max 100)".to_string())
    );
}

#[test]
fn a_change_counts_characters_after_trimming() {
    let herb = sample();
    let name = format!(" {} ", "é".repeat(100));
    let changed = change(Some(&name), None, None).apply(&herb).unwrap();
    assert_eq!(changed.name, name);
    let name = "é".repeat(101);
    assert_eq!(change(Some(&name), None, None).apply(&herb), Err("invalid name".to_string()));
    let location = format!("{}\n", "l".repeat(200));
    assert!(change(None, None, Some(&location)).apply(&herb).is_ok());
    let location = "l".repeat(201);
    assert_eq!(
        change(None, None, Some(&location)).apply(&herb),
        Err("invalid location".to_string())
    );
}

#[test]
fn a_change_of_the_location_keeps_the_rest() {
    let herb = sample();
    let changed = change(None, None, Some("X")).apply(&herb).unwrap();
    assert_eq!(changed.location, "X");
    assert_eq!(changed.id, herb.id);
    assert_eq!(changed.created_at, herb.created_at);
    assert_eq!(changed.name, herb.name);
    assert_eq!(changed.farmer, herb.farmer);
}

#[test]
fn a_change_without_fields_changes_nothing() {
    let herb = sample();
    assert_eq!(change(None, None, None).apply(&herb), Ok(sample()));
}

#[test]
fn a_change_of_all_fields() {
    let herb = sample();
    let changed = change(Some("Neem"), Some("Ravi"), Some("Goa")).apply(&herb).unwrap();
    assert_eq!(
        changed,
        Herb {
            id: "herb_abc123".to_string(),
            name: "Neem".to_string(),
            farmer: "Ravi".to_string(),
            location: "Goa".to_string(),
            created_at: Timestamp::new(1_700_000_000, 0).unwrap(),
        }
    );
}

#[test]
fn a_change_does_not_recompute_the_identifier() {
    let herb = sample();
    let changed = change(Some("Neem"), Some("Ravi"), None).apply(&herb).unwrap();
    assert_eq!(changed.id, "herb_abc123");
}

#[test]
fn a_change_with_a_broken_field_is_refused() {
    let herb = sample();
    let long = "x".repeat(101);
    let longer = "x".repeat(201);
    assert_eq!(change(Some(""), None, None).apply(&herb), Err("invalid name".to_string()));
    assert_eq!(change(Some("  "), None, None).apply(&herb), Err("invalid name".to_string()));
    assert_eq!(change(Some(&long), None, None).apply(&herb), Err("invalid name".to_string()));
    assert_eq!(change(None, Some("\n"), None).apply(&herb), Err("invalid farmer".to_string()));
    assert_eq!(change(None, Some(&long), None).apply(&herb), Err("invalid farmer".to_string()));
    assert_eq!(change(None, None, Some(" ")).apply(&herb), Err("invalid location".to_string()));
    assert_eq!(
        change(None, None, Some(&longer)).apply(&herb),
        Err("invalid location".to_string())
    );
    assert_eq!(
        change(Some("ok"), Some(""), Some("")).apply(&herb),
        Err("invalid farmer".to_string())
    );
}

#[test]
fn a_change_at_the_limits_is_accepted() {
    let herb = sample();
    let name = "n".repeat(100);
    let location = "l".repeat(200);
    let changed = change(Some(&name), None, Some(&location)).apply(&herb).unwrap();
    assert_eq!(changed.name, name);
    assert_eq!(changed.location, location);
    assert_eq!(changed.farmer, "Asha");
}
