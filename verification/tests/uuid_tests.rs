//! Tests for the typed UUID wrappers.

use triton::error::Error;
use triton::uuid::validate_uuid;
use triton::uuid::AppUuid;
use triton::uuid::FirewallRuleUuid;
use triton::uuid::ImageUuid;
use triton::uuid::InstanceUuid;
use triton::uuid::NetworkUuid;
use triton::uuid::OwnerUuid;
use triton::uuid::PackageUuid;
use triton::uuid::ServerUuid;
use triton::uuid::Uuid;
use triton::uuid::VmUuid;

const VALID_UUID: &str = "550e8400-e29b-41d4-a716-446655440000";
const INVALID_UUID: &str = "not-a-uuid";

#[test]
fn test_vm_uuid_new() {
    let uuid = Uuid::parse(VALID_UUID).unwrap();
    let vm_uuid = VmUuid::new(uuid);
    assert_eq!(vm_uuid.as_uuid(), &uuid);
}

#[test]
fn test_vm_uuid_new_v4() {
    let vm_uuid = VmUuid::new_v4();
    assert!(vm_uuid.as_uuid().get_version_num() == 4);
}

#[test]
fn test_vm_uuid_parse_str_valid() {
    let result = VmUuid::parse_str(VALID_UUID);
    assert!(result.is_ok());
    assert_eq!(result.unwrap().to_uuid_string(), VALID_UUID);
}

#[test]
fn test_vm_uuid_parse_str_invalid() {
    let result = VmUuid::parse_str(INVALID_UUID);
    assert!(result.is_err());
    assert!(matches!(result.unwrap_err(), Error::InvalidUuid(_)));
}

#[test]
fn test_vm_uuid_from_str() {
    let result: Result<VmUuid, Error> = VALID_UUID.parse();
    assert!(result.is_ok());
}

#[test]
fn test_vm_uuid_display() {
    let uuid = Uuid::parse(VALID_UUID).unwrap();
    let vm_uuid = VmUuid::new(uuid);
    assert_eq!(vm_uuid.to_uuid_string(), VALID_UUID);
}

#[test]
fn test_vm_uuid_into_uuid() {
    let uuid = Uuid::parse(VALID_UUID).unwrap();
    let vm_uuid = VmUuid::new(uuid);
    let converted: Uuid = vm_uuid.into_uuid();
    assert_eq!(converted, uuid);
}

#[test]
fn test_vm_uuid_from_uuid() {
    let uuid = Uuid::parse(VALID_UUID).unwrap();
    let vm_uuid: VmUuid = uuid.into();
    assert_eq!(vm_uuid.as_uuid(), &uuid);
}

#[test]
fn test_vm_uuid_as_ref() {
    let uuid = Uuid::parse(VALID_UUID).unwrap();
    let vm_uuid = VmUuid::new(uuid);
    let uuid_ref: &Uuid = vm_uuid.as_uuid();
    assert_eq!(uuid_ref, &uuid);
}

#[test]
fn test_vm_uuid_eq() {
    let uuid = Uuid::parse(VALID_UUID).unwrap();
    let vm_uuid1 = VmUuid::new(uuid);
    let vm_uuid2 = VmUuid::new(uuid);
    assert_eq!(vm_uuid1, vm_uuid2);
}

#[test]
fn test_vm_uuid_clone() {
    let uuid = Uuid::parse(VALID_UUID).unwrap();
    let vm_uuid = VmUuid::new(uuid);
    let cloned = vm_uuid;
    assert_eq!(vm_uuid, cloned);
}

#[test]
fn test_server_uuid() {
    let uuid = Uuid::parse(VALID_UUID).unwrap();
    let server_uuid = ServerUuid::new(uuid);
    assert_eq!(server_uuid.to_uuid_string(), VALID_UUID);
}

#[test]
fn test_network_uuid() {
    let uuid = Uuid::parse(VALID_UUID).unwrap();
    let network_uuid = NetworkUuid::new(uuid);
    assert_eq!(network_uuid.to_uuid_string(), VALID_UUID);
}

#[test]
fn test_image_uuid() {
    let uuid = Uuid::parse(VALID_UUID).unwrap();
    let image_uuid = ImageUuid::new(uuid);
    assert_eq!(image_uuid.to_uuid_string(), VALID_UUID);
}

#[test]
fn test_package_uuid() {
    let uuid = Uuid::parse(VALID_UUID).unwrap();
    let package_uuid = PackageUuid::new(uuid);
    assert_eq!(package_uuid.to_uuid_string(), VALID_UUID);
}

#[test]
fn test_owner_uuid() {
    let uuid = Uuid::parse(VALID_UUID).unwrap();
    let owner_uuid = OwnerUuid::new(uuid);
    assert_eq!(owner_uuid.to_uuid_string(), VALID_UUID);
}

#[test]
fn test_app_uuid() {
    let uuid = Uuid::parse(VALID_UUID).unwrap();
    let app_uuid = AppUuid::new(uuid);
    assert_eq!(app_uuid.to_uuid_string(), VALID_UUID);
}

#[test]
fn test_instance_uuid() {
    let uuid = Uuid::parse(VALID_UUID).unwrap();
    let instance_uuid = InstanceUuid::new(uuid);
    assert_eq!(instance_uuid.to_uuid_string(), VALID_UUID);
}

#[test]
fn test_firewall_rule_uuid() {
    let uuid = Uuid::parse(VALID_UUID).unwrap();
    let rule_uuid = FirewallRuleUuid::new(uuid);
    assert_eq!(rule_uuid.to_uuid_string(), VALID_UUID);
}

#[test]
fn test_validate_uuid_valid() {
    let result = validate_uuid(VALID_UUID);
    assert!(result.is_ok());
}

#[test]
fn test_validate_uuid_invalid() {
    let result = validate_uuid(INVALID_UUID);
    assert!(result.is_err());
    assert!(matches!(result.unwrap_err(), Error::InvalidUuid(_)));
}

#[test]
fn test_different_uuid_types_are_different() {
    let uuid = Uuid::parse(VALID_UUID).unwrap();
    let vm_uuid = VmUuid::new(uuid);
    let server_uuid = ServerUuid::new(uuid);

    // These are different types; they render the same text.
    assert_eq!(vm_uuid.to_uuid_string(), server_uuid.to_uuid_string());
}

#[test]
fn uuid_parse_accepts_simple_form() {
    let simple = "550e8400e29b41d4a716446655440000";
    let parsed = Uuid::parse(simple).unwrap();
    assert_eq!(parsed.to_uuid_string(), VALID_UUID);
}

#[test]
fn uuid_parse_accepts_upper_case() {
    let upper = "550E8400-E29B-41D4-A716-446655440000";
    let parsed = Uuid::parse(upper).unwrap();
    assert_eq!(parsed.to_uuid_string(), VALID_UUID);
}

#[test]
fn uuid_parse_rejects_bad_lengths_and_digits() {
    assert!(Uuid::parse("").is_none());
    assert!(Uuid::parse("550e8400-e29b-41d4-a716-44665544000").is_none());
    assert!(Uuid::parse("550e8400-e29b-41d4-a716-4466554400zz").is_none());
    assert!(Uuid::parse("550e8400e29b-41d4-a716-446655440000").is_none());
}

#[test]
fn uuid_parse_accepts_braced_and_urn_forms() {
    let braced = "{550e8400-e29b-41d4-a716-446655440000}";
    assert_eq!(Uuid::parse(braced).unwrap().to_uuid_string(), VALID_UUID);

    let urn = "urn:uuid:550e8400-e29b-41d4-a716-446655440000";
    assert_eq!(Uuid::parse(urn).unwrap().to_uuid_string(), VALID_UUID);

    let urn_upper = "URN:UUID:550e8400-e29b-41d4-a716-446655440000";
    assert_eq!(Uuid::parse(urn_upper).unwrap().to_uuid_string(), VALID_UUID);

    // The wrappers only admit the hyphenated digits inside.
    assert!(Uuid::parse("{550e8400e29b41d4a716446655440000}").is_none());
    assert!(Uuid::parse("urn:uuid:550e8400e29b41d4a7164466554400").is_none());
    assert!(Uuid::parse("arn:uuid:550e8400-e29b-41d4-a716-446655440000").is_none());
}

#[test]
fn uuid_round_trip_through_text() {
    let fresh = Uuid::new_v4();
    let text = fresh.to_uuid_string();
    let back = Uuid::parse(text.as_str()).unwrap();
    assert_eq!(back, fresh);
}
