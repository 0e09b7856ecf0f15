use vpn_bot_tg::device::{
    confirm_deleted, device_list, device_token, find_device, select_owned_user, validate_token,
    DeviceError, DeviceList,
};
use vpn_bot_tg::remnawave::{HwidDevice, HwidDevices, RemnawaveUser, UserTraffic};

fn user(id: i64, telegram_id: u64) -> RemnawaveUser {
    RemnawaveUser {
        id,
        username: "test-user".to_string(),
        status: "ACTIVE".to_string(),
        traffic_limit_bytes: 0,
        expire_at: "2026-10-01T00:00:00Z".to_string(),
        telegram_id: Some(telegram_id),
        hwid_device_limit: Some(5),
        subscription_url: "https://example.invalid/subscription".to_string(),
        tag: Some("PAID".to_string()),
        user_traffic: UserTraffic {
            used_traffic_bytes: 0,
            lifetime_used_traffic_bytes: 0,
            online_at: None,
            first_connected_at: None,
        },
    }
}

fn device(user_id: i64, hwid: &str) -> HwidDevice {
    HwidDevice {
        user_id,
        hwid: hwid.to_string(),
        platform: Some("Android".to_string()),
        os_version: Some("16".to_string()),
        device_model: Some("Телефон".to_string()),
        user_agent: None,
        created_at: "2026-09-16T00:00:00Z".to_string(),
        updated_at: "2026-09-16T01:00:00Z".to_string(),
    }
}

fn reported(devices: Vec<HwidDevice>) -> HwidDevices {
    HwidDevices { total: devices.len(), devices }
}

fn hwids(list: &DeviceList) -> Vec<&str> {
    list.devices.iter().map(|d| d.hwid.as_str()).collect()
}

#[test]
fn token_is_32_lowercase_hex_digits_and_stable() {
    let token = device_token(&device(7, "phone"));
    assert_eq!(token.len(), 32);
    assert!(token.bytes().all(|b| b.is_ascii_digit() || (b'a'..=b'f').contains(&b)));
    assert_eq!(token, device_token(&device(7, "phone")));
    assert!(validate_token(&token).is_ok());
}

#[test]
fn token_differs_for_another_owner_hwid_or_creation() {
    let token = device_token(&device(7, "phone"));
    assert_ne!(token, device_token(&device(8, "phone")));
    assert_ne!(token, device_token(&device(7, "laptop")));
    let mut recreated = device(7, "phone");
    recreated.created_at = "2026-09-17T00:00:00Z".to_string();
    assert_ne!(token, device_token(&recreated));
    let mut renamed = device(7, "phone");
    renamed.device_model = None;
    renamed.updated_at = "2027-01-01T00:00:00Z".to_string();
    assert_eq!(token, device_token(&renamed));
}

#[test]
fn malformed_tokens_are_refused_before_any_lookup() {
    for token in ["", "7:phone", "../../", "неверная-кнопка", &"g".repeat(32), &"a".repeat(31)] {
        assert!(matches!(validate_token(token), Err(DeviceError::DeviceNotFound)));
    }
    assert!(validate_token(&"AbC0".repeat(8)).is_ok());
}

#[test]
fn missing_ambiguous_and_foreign_subscriptions_are_refused() {
    assert!(matches!(select_owned_user(vec![], 42), Err(DeviceError::SubscriptionNotFound)));
    assert!(matches!(
        select_owned_user(vec![user(7, 42), user(8, 42)], 42),
        Err(DeviceError::MultipleSubscriptions)
    ));
    assert!(matches!(
        select_owned_user(vec![user(7, 99)], 42),
        Err(DeviceError::OwnershipMismatch)
    ));
    assert!(matches!(
        select_owned_user(vec![user(0, 42)], 42),
        Err(DeviceError::OwnershipMismatch)
    ));
    let mut unbound = user(7, 42);
    unbound.telegram_id = None;
    assert!(matches!(select_owned_user(vec![unbound], 42), Err(DeviceError::OwnershipMismatch)));
    assert_eq!(select_owned_user(vec![user(7, 42)], 42).unwrap().id, 7);
}

#[test]
fn list_keeps_limit_and_nullable_metadata() {
    let mut item = device(7, "phone");
    item.device_model = None;
    item.os_version = None;
    item.platform = None;
    let list = device_list(&user(7, 42), reported(vec![item])).unwrap();
    assert_eq!(list.limit, Some(5));
    assert_eq!(list.devices.len(), 1);
    assert!(list.devices[0].device_model.is_none());
}

#[test]
fn list_is_ordered_by_creation_then_hwid() {
    let mut early = device(7, "zeta");
    early.created_at = "2026-01-01T00:00:00Z".to_string();
    let list = device_list(
        &user(7, 42),
        reported(vec![device(7, "phone"), device(7, "laptop"), early]),
    )
    .unwrap();
    assert_eq!(hwids(&list), vec!["zeta", "laptop", "phone"]);
}

#[test]
fn foreign_device_and_incomplete_list_are_refused() {
    assert!(matches!(
        device_list(&user(7, 42), reported(vec![device(7, "phone"), device(8, "foreign")])),
        Err(DeviceError::OwnershipMismatch)
    ));
    assert!(matches!(
        device_list(&user(7, 42), HwidDevices { total: 1, devices: vec![] }),
        Err(DeviceError::IncompleteDeviceList)
    ));
    assert!(matches!(
        device_list(&user(7, 42), HwidDevices { total: 3, devices: vec![device(8, "x")] }),
        Err(DeviceError::OwnershipMismatch)
    ));
}

#[test]
fn lookup_uses_stable_identity_after_reordering() {
    let token = device_token(&device(7, "phone"));
    let first = device_list(&user(7, 42), reported(vec![device(7, "phone"), device(7, "laptop")]))
        .unwrap();
    let second = device_list(&user(7, 42), reported(vec![device(7, "laptop"), device(7, "phone")]))
        .unwrap();
    assert_eq!(find_device(&first, &token).unwrap().hwid, "phone");
    assert_eq!(find_device(&second, &token).unwrap().hwid, "phone");
}

#[test]
fn foreign_and_recreated_tokens_find_nothing() {
    let list = device_list(&user(7, 42), reported(vec![device(7, "phone")])).unwrap();
    assert!(matches!(
        find_device(&list, &device_token(&device(8, "phone"))),
        Err(DeviceError::DeviceNotFound)
    ));
    let mut recreated = device(7, "phone");
    recreated.created_at = "2026-09-17T00:00:00Z".to_string();
    let list = device_list(&user(7, 42), reported(vec![recreated])).unwrap();
    assert!(matches!(
        find_device(&list, &device_token(&device(7, "phone"))),
        Err(DeviceError::DeviceNotFound)
    ));
}

#[test]
fn two_devices_with_one_token_are_ambiguous() {
    let list = DeviceList { limit: None, devices: vec![device(7, "phone"), device(7, "phone")] };
    assert!(matches!(
        find_device(&list, &device_token(&device(7, "phone"))),
        Err(DeviceError::DeviceNotFound)
    ));
}

#[test]
fn deletion_is_confirmed_only_when_the_device_is_gone() {
    let token = device_token(&device(7, "phone"));
    let remaining = device_list(&user(7, 42), reported(vec![device(7, "laptop")])).unwrap();
    let confirmed = confirm_deleted(remaining, &token).unwrap();
    assert_eq!(hwids(&confirmed), vec!["laptop"]);
    assert_eq!(confirmed.limit, Some(5));
    assert!(matches!(find_device(&confirmed, &token), Err(DeviceError::DeviceNotFound)));

    let still_there = device_list(&user(7, 42), reported(vec![device(7, "phone")])).unwrap();
    assert!(matches!(confirm_deleted(still_there, &token), Err(DeviceError::DeletionNotApplied)));
}
