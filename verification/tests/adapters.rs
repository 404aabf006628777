use dxva_probe::adapters::AdapterIdentity;
use dxva_probe::adapters::dedup_by_identifier;
use dxva_probe::adapters::nul_terminated_prefix;
use dxva_probe::session::SessionError;

fn adapter(index: u32, device_identifier: u128, description: &str) -> AdapterIdentity {
    AdapterIdentity {
        index,
        driver: String::from("driver.dll"),
        description: String::from(description),
        device_name: format!("\\\\.\\DISPLAY{}", index + 1),
        driver_version: 0x0011_0022_0033_0044,
        vendor_id: 0x8086,
        device_id: 0x0412,
        sub_system_id: 0,
        revision: 6,
        device_identifier,
        whql_level: 1,
    }
}

#[test]
fn shared_identifier_collapses_to_first_seen() {
    let listed = vec![
        adapter(0, 0xaaaa, "primary"),
        adapter(1, 0xaaaa, "mirror of primary"),
        adapter(2, 0xbbbb, "secondary"),
    ];
    let kept = dedup_by_identifier(listed);
    assert_eq!(kept.len(), 2);
    assert_eq!(kept[0].index, 0);
    assert_eq!(kept[0].description, "primary");
    assert_eq!(kept[1].index, 2);
    assert_eq!(kept[1].device_identifier, 0xbbbb);
}

#[test]
fn distinct_identifiers_all_stay_in_order() {
    let listed = vec![
        adapter(0, 1, "a"),
        adapter(1, 2, "b"),
        adapter(2, 3, "c"),
    ];
    let kept = dedup_by_identifier(listed);
    assert_eq!(kept.len(), 3);
    assert_eq!(
        kept.iter().map(|a| a.index).collect::<Vec<_>>(),
        vec![0, 1, 2]
    );
}

#[test]
fn empty_adapter_list_stays_empty() {
    assert_eq!(dedup_by_identifier(Vec::new()).len(), 0);
}

#[test]
fn c_string_prefix_stops_at_first_nul() {
    assert_eq!(nul_terminated_prefix(b"igdumd64.dll\0\0junk"), b"igdumd64.dll");
    assert_eq!(nul_terminated_prefix(b"no terminator"), b"no terminator");
    assert_eq!(nul_terminated_prefix(b"\0starts empty"), b"");
    assert_eq!(nul_terminated_prefix(b""), b"");
}

#[test]
fn session_errors_name_their_step() {
    assert_eq!(
        SessionError::DeviceCreationFailed.description(),
        "device creation failed"
    );
    assert_eq!(
        SessionError::ManagerCreationFailed.description(),
        "device manager creation failed"
    );
    assert_eq!(
        SessionError::ServiceQueryFailed.description(),
        "video decoder service query failed"
    );
}
