use iot_remote_lab_server::adapters::InMemoryDeviceRepository;
use iot_remote_lab_server::domain::device_id::{
    parse_device_id, RANDOM_VERSION_VARIANT, VERSION_VARIANT_MASK,
};
use iot_remote_lab_server::domain::Device;
use iot_remote_lab_server::repository::DeviceRepository;
use iot_remote_lab_server::service::DeviceService;

/// Basic test for repository operations: create, find, and list.
#[test]
fn basic_repo() {
    let mut repo = InMemoryDeviceRepository::new();
    let device = Device::new("d1");
    let created = repo.create(device.clone()).unwrap();
    assert_eq!(created, device);
    let found = repo.find_by_id(device.id).unwrap().unwrap();
    assert_eq!(found, device);
    let list = repo.list().unwrap();
    assert_eq!(list.len(), 1);
}

/// Test for creating a device and retrieving it.
#[test]
fn create_and_get() {
    let repo = InMemoryDeviceRepository::new();
    let mut service = DeviceService::new(repo);
    let created = service
        .create("my-device", "board-id-123".to_string(), None::<String>, None::<String>)
        .unwrap();
    let got = service.get(created.id).unwrap().unwrap();
    assert_eq!(got.name, "my-device");
}

#[test]
fn new_device_is_bare_with_empty_board_id() {
    let device = Device::new("d1");
    assert_eq!(device.name, "d1");
    assert_eq!(device.board_id, "");
    assert_eq!(device.board_type, None);
    assert_eq!(device.project_path, None);
}

#[test]
fn fresh_ids_are_random_version_four() {
    let first = Device::new("a");
    let second = Device::new("a");
    assert_eq!(first.id & VERSION_VARIANT_MASK, RANDOM_VERSION_VARIANT);
    assert_eq!(second.id & VERSION_VARIANT_MASK, RANDOM_VERSION_VARIANT);
    assert_ne!(first.id, second.id);
    assert_eq!(uuid::Uuid::from_u128(first.id).get_version_num(), 4);
}

#[test]
fn with_esp32_config_keeps_every_value() {
    let device = Device::with_esp32_config(
        "lab-1",
        "board-7".to_string(),
        "esp32dev".to_string(),
        "/srv/projects/lab-1".to_string(),
    );
    assert_eq!(device.name, "lab-1");
    assert_eq!(device.board_id, "board-7");
    assert_eq!(device.board_type, Some("esp32dev".to_string()));
    assert_eq!(device.project_path, Some("/srv/projects/lab-1".to_string()));
    assert_eq!(device.id & VERSION_VARIANT_MASK, RANDOM_VERSION_VARIANT);
}

#[test]
fn constructors_with_given_id() {
    let bare = Device::bare(42, "b");
    assert_eq!(
        bare,
        Device {
            id: 42,
            name: "b".to_string(),
            board_id: String::new(),
            board_type: None,
            project_path: None,
        }
    );
    let configured =
        Device::configured(43, "c", "bid".to_string(), "esp32dev".to_string(), "/p".to_string());
    assert_eq!(
        configured,
        Device {
            id: 43,
            name: "c".to_string(),
            board_id: "bid".to_string(),
            board_type: Some("esp32dev".to_string()),
            project_path: Some("/p".to_string()),
        }
    );
}

#[test]
fn clone_is_an_independent_equal_copy() {
    let source = Device::configured(
        1,
        "n",
        "b".to_string(),
        "esp32-s3-devkitc-1".to_string(),
        "/p".to_string(),
    );
    let mut copy = source.clone();
    assert_eq!(copy, source);
    copy.name.push_str("-changed");
    assert_eq!(source.name, "n");
}

#[test]
fn parse_device_id_reads_the_accepted_notations() {
    let value = 0xa1a2a3a4_b1b2_c1c2_d1d2_d3d4d5d6d7d8u128;
    assert_eq!(parse_device_id("a1a2a3a4-b1b2-c1c2-d1d2-d3d4d5d6d7d8"), Some(value));
    assert_eq!(parse_device_id("a1a2a3a4b1b2c1c2d1d2d3d4d5d6d7d8"), Some(value));
    assert_eq!(parse_device_id("A1A2A3A4-B1B2-C1C2-D1D2-D3D4D5D6D7D8"), Some(value));
    assert_eq!(parse_device_id("urn:uuid:a1a2a3a4-b1b2-c1c2-d1d2-d3d4d5d6d7d8"), Some(value));
    assert_eq!(parse_device_id("{a1a2a3a4-b1b2-c1c2-d1d2-d3d4d5d6d7d8}"), Some(value));
    assert_eq!(parse_device_id("00000000-0000-0000-0000-000000000000"), Some(0));
}

#[test]
fn parse_device_id_rejects_what_is_no_uuid() {
    assert_eq!(parse_device_id(""), None);
    assert_eq!(parse_device_id("not-a-uuid"), None);
    assert_eq!(parse_device_id("a1a2a3a4-b1b2-c1c2-d1d2-d3d4d5d6d7d"), None);
    assert_eq!(parse_device_id("a1a2a3a4-b1b2-c1c2-d1d2-d3d4d5d6d7d8a"), None);
    assert_eq!(parse_device_id("g1a2a3a4-b1b2-c1c2-d1d2-d3d4d5d6d7d8"), None);
    assert_eq!(parse_device_id("42"), None);
}

#[test]
fn parse_device_id_agrees_with_the_uuid_crate() {
    let device = Device::new("x");
    let text = uuid::Uuid::from_u128(device.id).hyphenated().to_string();
    assert_eq!(parse_device_id(&text), Some(device.id));
}

#[test]
fn empty_store_lists_nothing_and_finds_nothing() {
    let repo = InMemoryDeviceRepository::new();
    assert_eq!(repo.list().unwrap(), Vec::<Device>::new());
    assert_eq!(repo.find_by_id(0).unwrap(), None);
    assert_eq!(repo.find_by_id(u128::MAX).unwrap(), None);
}

#[test]
fn find_by_id_of_unknown_id_is_absent_not_an_error() {
    let mut repo = InMemoryDeviceRepository::new();
    repo.create(Device::bare(1, "one")).unwrap();
    repo.create(Device::bare(2, "two")).unwrap();
    assert_eq!(repo.find_by_id(3), Ok(None));
}

#[test]
fn create_overwrites_the_record_of_the_same_id() {
    let mut repo = InMemoryDeviceRepository::new();
    repo.create(Device::bare(7, "old")).unwrap();
    let newer =
        Device::configured(7, "new", "b".to_string(), "esp32dev".to_string(), "/p".to_string());
    let stored = repo.create(newer.clone()).unwrap();
    assert_eq!(stored, newer);
    assert_eq!(repo.find_by_id(7).unwrap(), Some(newer.clone()));
    assert_eq!(repo.list().unwrap(), vec![newer]);
}

#[test]
fn callers_get_copies_of_what_is_stored() {
    let mut repo = InMemoryDeviceRepository::new();
    repo.create(Device::bare(7, "kept")).unwrap();
    let mut found = repo.find_by_id(7).unwrap().unwrap();
    found.name = "changed by the caller".to_string();
    assert_eq!(repo.find_by_id(7).unwrap().unwrap().name, "kept");
    let mut listed = repo.list().unwrap();
    listed[0].name = "changed again".to_string();
    assert_eq!(repo.list().unwrap()[0].name, "kept");
}

#[test]
fn list_after_distinct_creates_holds_each_exactly_once() {
    let mut repo = InMemoryDeviceRepository::new();
    let mut created = Vec::new();
    for id in 0u128..25 {
        let name = format!("device-{}", id);
        let device = if id % 2 == 0 {
            Device::bare(id * 1_000_003, &name)
        } else {
            Device::configured(
                id * 1_000_003,
                &name,
                format!("board-{}", id),
                "esp32dev".to_string(),
                format!("/projects/{}", id),
            )
        };
        created.push(repo.create(device).unwrap());
    }
    let mut listed = repo.list().unwrap();
    assert_eq!(listed.len(), 25);
    listed.sort_by_key(|d| d.id);
    created.sort_by_key(|d| d.id);
    assert_eq!(listed, created);
    for device in &created {
        assert_eq!(repo.find_by_id(device.id).unwrap().as_ref(), Some(device));
    }
}

#[test]
fn list_is_a_snapshot() {
    let mut repo = InMemoryDeviceRepository::new();
    repo.create(Device::bare(1, "one")).unwrap();
    let snapshot = repo.list().unwrap();
    repo.create(Device::bare(2, "two")).unwrap();
    assert_eq!(snapshot, vec![Device::bare(1, "one")]);
    assert_eq!(repo.list().unwrap().len(), 2);
}

#[test]
fn creation_order_does_not_matter() {
    let devices = vec![Device::bare(3, "c"), Device::bare(1, "a"), Device::bare(2, "b")];
    let mut forward = InMemoryDeviceRepository::new();
    for device in devices.iter() {
        forward.create(device.clone()).unwrap();
    }
    let mut backward = InMemoryDeviceRepository::new();
    for device in devices.iter().rev() {
        backward.create(device.clone()).unwrap();
    }
    let mut left = forward.list().unwrap();
    let mut right = backward.list().unwrap();
    left.sort_by_key(|d| d.id);
    right.sort_by_key(|d| d.id);
    assert_eq!(left, right);
    assert_eq!(left.len(), 3);
}

#[test]
fn default_store_is_empty() {
    let repo = InMemoryDeviceRepository::default();
    assert_eq!(repo.list().unwrap().len(), 0);
}

#[test]
fn service_creates_configured_device_when_both_are_given() {
    let mut service = DeviceService::new(InMemoryDeviceRepository::new());
    let created = service
        .create(
            "lab",
            "board-id-123".to_string(),
            Some("esp32dev".to_string()),
            Some("/tmp/lab".to_string()),
        )
        .unwrap();
    assert_eq!(created.name, "lab");
    assert_eq!(created.board_id, "board-id-123");
    assert_eq!(created.board_type, Some("esp32dev".to_string()));
    assert_eq!(created.project_path, Some("/tmp/lab".to_string()));
    assert_eq!(service.get(created.id).unwrap(), Some(created));
}

#[test]
fn service_creates_bare_device_when_either_is_missing() {
    let mut service = DeviceService::new(InMemoryDeviceRepository::new());
    let only_board = service
        .create("a", "board-id-123".to_string(), Some("esp32dev".to_string()), None)
        .unwrap();
    let only_path =
        service.create("b", "board-id-123".to_string(), None, Some("/tmp/b".to_string())).unwrap();
    let neither = service.create("c", "board-id-123".to_string(), None, None).unwrap();
    for (device, name) in [(only_board, "a"), (only_path, "b"), (neither, "c")] {
        assert_eq!(device.name, name);
        assert_eq!(device.board_id, "");
        assert_eq!(device.board_type, None);
        assert_eq!(device.project_path, None);
        assert_eq!(service.get(device.id).unwrap(), Some(device));
    }
    assert_eq!(service.list().unwrap().len(), 3);
}

#[test]
fn service_accepts_empty_name_and_board_id() {
    let mut service = DeviceService::new(InMemoryDeviceRepository::new());
    let created = service
        .create("", String::new(), Some(String::new()), Some(String::new()))
        .unwrap();
    assert_eq!(created.name, "");
    assert_eq!(created.board_id, "");
    assert_eq!(created.board_type, Some(String::new()));
    assert_eq!(created.project_path, Some(String::new()));
}

#[test]
fn service_create_with_id_uses_the_given_id() {
    let mut service = DeviceService::new(InMemoryDeviceRepository::new());
    let created = service
        .create_with_id(
            99,
            "lab",
            "bid".to_string(),
            Some("esp32dev".to_string()),
            Some("/p".to_string()),
        )
        .unwrap();
    assert_eq!(
        created,
        Device::configured(99, "lab", "bid".to_string(), "esp32dev".to_string(), "/p".to_string())
    );
    let bare = service.create_with_id(100, "x", "bid".to_string(), None, None).unwrap();
    assert_eq!(bare, Device::bare(100, "x"));
    assert_eq!(service.get(99).unwrap(), Some(created));
    assert_eq!(service.get(101).unwrap(), None);
}

#[test]
fn service_list_after_creates_returns_all() {
    let mut service = DeviceService::new(InMemoryDeviceRepository::new());
    let mut created = Vec::new();
    for i in 0..10 {
        created.push(service.create(&format!("d{}", i), String::new(), None, None).unwrap());
    }
    let mut listed = service.list().unwrap();
    assert_eq!(listed.len(), 10);
    listed.sort_by_key(|d| d.id);
    created.sort_by_key(|d| d.id);
    assert_eq!(listed, created);
}
