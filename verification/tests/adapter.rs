use era_adapter::container::{Container, ContainerEntry};
use era_adapter::error::EraError;
use era_adapter::format::EraFormat;
use era_adapter::item::UpdateItem;
use era_adapter::names::placeholder_name;

fn entry(name: Option<&str>, payload: &[u8], compressed: &[u8], digest: u128) -> ContainerEntry {
    ContainerEntry {
        name: name.map(|s| s.to_string()),
        payload: payload.to_vec(),
        compressed: compressed.to_vec(),
        decomp_size: payload.len() as u64,
        digest,
    }
}

fn table() -> ContainerEntry {
    entry(None, &[], &[], 0)
}

fn sample_container() -> Container {
    Container {
        entries: vec![
            table(),
            entry(Some("alpha.txt"), b"alpha-content", b"AAA", 11),
            entry(None, b"beta", b"BB", 22),
        ],
    }
}

fn opened_sample() -> EraFormat {
    let mut f = EraFormat::default();
    let r = f.open(vec![0u8; 40], Ok(sample_container()));
    assert!(r.is_ok());
    f
}

fn extract_ok(f: &mut EraFormat, index: usize) -> Vec<u8> {
    match f.extract(index) {
        Ok(v) => v,
        Err(e) => panic!("extract({}) failed: {:?}", index, e),
    }
}

fn update_ok(f: &mut EraFormat, updates: Vec<UpdateItem>) -> Container {
    match f.update_streaming(updates) {
        Ok(c) => c,
        Err(e) => panic!("update failed: {:?}", e),
    }
}

#[test]
fn identity_name_and_extension() {
    assert_eq!(EraFormat::name(), "ERA");
    assert_eq!(EraFormat::extension(), "era");
}

#[test]
fn identity_class_id_bytes() {
    let expected: [u8; 16] = [
        0x78, 0x56, 0x34, 0x12, 0xCD, 0xAB, 0x01, 0xEF, 0x23, 0x45, 0x67, 0x89, 0xAB, 0xCD, 0xEF,
        0x01,
    ];
    assert_eq!(EraFormat::class_id(), expected);
}

#[test]
fn identity_class_id_constant_across_instances() {
    let first = EraFormat::class_id();
    let second = EraFormat::class_id();
    assert_eq!(first, second);
}

#[test]
fn identity_signature_and_capabilities() {
    assert!(EraFormat::signature().is_none());
    assert!(EraFormat::supports_write());
    assert!(EraFormat::supports_update());
}

#[test]
fn open_skips_filename_table() {
    let f = opened_sample();
    assert_eq!(f.item_count(), 2);
}

#[test]
fn open_reports_names_and_sizes() {
    let f = opened_sample();
    let first = f.get_item(0).expect("item 0");
    assert_eq!(first.name, "alpha.txt");
    assert_eq!(first.size, 13);
    assert_eq!(first.packed_size, 3);
    let second = f.get_item(1).expect("item 1");
    assert_eq!(second.name, "entry_2");
    assert_eq!(second.size, 4);
    assert_eq!(second.packed_size, 2);
    assert!(f.get_item(2).is_none());
}

#[test]
fn open_records_physical_size() {
    let f = opened_sample();
    assert_eq!(f.physical_size(), Some(40));
}

#[test]
fn open_failure_leaves_session_empty() {
    let mut f = opened_sample();
    let r = f.open(vec![1, 2, 3], Err("truncated header".to_string()));
    assert_eq!(r, Err(EraError::InvalidFormat("truncated header".to_string())));
    assert_eq!(f.item_count(), 0);
    assert_eq!(f.physical_size(), Some(0));
}

#[test]
fn reopen_discards_previous_session() {
    let mut f = opened_sample();
    let other = Container { entries: vec![table(), entry(Some("only.bin"), b"xy", b"Z", 3)] };
    let r = f.open(vec![9, 9], Ok(other));
    assert!(r.is_ok());
    assert_eq!(f.item_count(), 1);
    assert_eq!(f.get_item(0).expect("item").name, "only.bin");
    assert_eq!(f.physical_size(), Some(2));
}

#[test]
fn extract_returns_full_payloads() {
    let mut f = opened_sample();
    assert_eq!(extract_ok(&mut f, 0), b"alpha-content".to_vec());
    assert_eq!(extract_ok(&mut f, 1), b"beta".to_vec());
}

#[test]
fn extract_length_matches_reported_size() {
    let mut f = opened_sample();
    for i in 0..f.item_count() {
        let size = f.get_item(i).expect("item").size;
        let payload = extract_ok(&mut f, i);
        assert_eq!(payload.len() as u64, size);
    }
}

#[test]
fn extract_out_of_bounds_carries_count() {
    let mut f = opened_sample();
    let count = f.item_count();
    let r = f.extract(count);
    assert_eq!(r, Err(EraError::IndexOutOfBounds { index: 2, count: 2 }));
}

#[test]
fn close_resets_counts() {
    let mut f = opened_sample();
    f.close();
    assert_eq!(f.item_count(), 0);
    assert_eq!(f.physical_size(), Some(0));
}

#[test]
fn close_is_safe_when_never_opened_and_when_repeated() {
    let mut f = EraFormat::default();
    f.close();
    f.close();
    assert_eq!(f.item_count(), 0);
    let mut g = opened_sample();
    g.close();
    g.close();
    assert_eq!(g.item_count(), 0);
}

#[test]
fn update_copy_all_round_trip() {
    let mut f = opened_sample();
    let rebuilt = update_ok(
        &mut f,
        vec![
            UpdateItem::CopyExisting { index: 0, new_name: None },
            UpdateItem::CopyExisting { index: 1, new_name: None },
        ],
    );
    assert_eq!(rebuilt.entries.len(), 3);
    // The copies reuse the stored chunks verbatim: no recompression, and the
    // digests travel unrecomputed.
    assert_eq!(rebuilt.entries[1].compressed, b"AAA".to_vec());
    assert_eq!(rebuilt.entries[1].digest, 11);
    assert_eq!(rebuilt.entries[2].compressed, b"BB".to_vec());
    assert_eq!(rebuilt.entries[2].digest, 22);
    let mut g = EraFormat::default();
    assert!(g.open(Vec::new(), Ok(rebuilt)).is_ok());
    assert_eq!(g.item_count(), 2);
    assert_eq!(extract_ok(&mut g, 0), b"alpha-content".to_vec());
    assert_eq!(extract_ok(&mut g, 1), b"beta".to_vec());
    assert_eq!(g.get_item(0).expect("item").name, "alpha.txt");
    assert_eq!(g.get_item(1).expect("item").name, "entry_2");
}

#[test]
fn update_rename_changes_only_the_name() {
    let mut f = opened_sample();
    let rebuilt = update_ok(
        &mut f,
        vec![UpdateItem::CopyExisting { index: 0, new_name: Some("renamed.bin".to_string()) }],
    );
    let mut g = EraFormat::default();
    assert!(g.open(Vec::new(), Ok(rebuilt)).is_ok());
    assert_eq!(g.item_count(), 1);
    let item = g.get_item(0).expect("item");
    assert_eq!(item.name, "renamed.bin");
    assert_eq!(item.size, 13);
    assert_eq!(item.packed_size, 3);
    assert_eq!(extract_ok(&mut g, 0), b"alpha-content".to_vec());
}

#[test]
fn update_add_new_round_trip() {
    let mut f = EraFormat::default();
    let data = vec![1u8, 2, 3];
    let rebuilt = update_ok(
        &mut f,
        vec![UpdateItem::AddNew { name: "x".to_string(), data: data.clone() }],
    );
    // The model codec stores the content itself as the chunk, with its
    // byte-sum digest.
    assert_eq!(rebuilt.entries[1].digest, 6);
    let mut g = EraFormat::default();
    assert!(g.open(Vec::new(), Ok(rebuilt)).is_ok());
    assert_eq!(g.item_count(), 1);
    assert_eq!(g.get_item(0).expect("item").name, "x");
    assert_eq!(extract_ok(&mut g, 0), data);
}

#[test]
fn update_out_of_bounds_copy_is_rejected() {
    let mut f = opened_sample();
    let r = f.update_streaming(vec![UpdateItem::CopyExisting { index: 2, new_name: None }]);
    assert_eq!(r, Err(EraError::IndexOutOfBounds { index: 2, count: 2 }));
    let r = f.update_streaming(vec![
        UpdateItem::CopyExisting { index: 0, new_name: None },
        UpdateItem::CopyExisting { index: 5, new_name: None },
    ]);
    assert_eq!(r, Err(EraError::IndexOutOfBounds { index: 5, count: 2 }));
}

#[test]
fn update_copy_on_unopened_session_is_rejected() {
    let mut f = EraFormat::default();
    let r = f.update_streaming(vec![UpdateItem::CopyExisting { index: 0, new_name: None }]);
    assert_eq!(r, Err(EraError::IndexOutOfBounds { index: 0, count: 0 }));
}

#[test]
fn update_empty_edit_list_yields_empty_archive() {
    let mut f = opened_sample();
    let rebuilt = update_ok(&mut f, Vec::new());
    assert_eq!(rebuilt.entries.len(), 1);
    let mut g = EraFormat::default();
    assert!(g.open(Vec::new(), Ok(rebuilt)).is_ok());
    assert_eq!(g.item_count(), 0);
}

#[test]
fn update_preserves_edit_order() {
    let mut f = opened_sample();
    let rebuilt = update_ok(
        &mut f,
        vec![
            UpdateItem::AddNew { name: "x".to_string(), data: b"new".to_vec() },
            UpdateItem::CopyExisting { index: 1, new_name: None },
            UpdateItem::CopyExisting { index: 0, new_name: Some("last".to_string()) },
        ],
    );
    let mut g = EraFormat::default();
    assert!(g.open(Vec::new(), Ok(rebuilt)).is_ok());
    assert_eq!(g.item_count(), 3);
    assert_eq!(g.get_item(0).expect("item").name, "x");
    assert_eq!(g.get_item(1).expect("item").name, "entry_2");
    assert_eq!(g.get_item(2).expect("item").name, "last");
    assert_eq!(extract_ok(&mut g, 0), b"new".to_vec());
    assert_eq!(extract_ok(&mut g, 1), b"beta".to_vec());
    assert_eq!(extract_ok(&mut g, 2), b"alpha-content".to_vec());
}

#[test]
fn update_does_not_disturb_the_open_session() {
    let mut f = opened_sample();
    let _ = update_ok(&mut f, vec![UpdateItem::CopyExisting { index: 1, new_name: None }]);
    assert_eq!(f.item_count(), 2);
    assert_eq!(extract_ok(&mut f, 0), b"alpha-content".to_vec());
}

#[test]
fn open_container_with_only_the_table_has_no_items() {
    let mut f = EraFormat::default();
    let only_table = Container { entries: vec![table()] };
    assert!(f.open(vec![5u8; 3], Ok(only_table)).is_ok());
    assert_eq!(f.item_count(), 0);
    assert_eq!(f.physical_size(), Some(3));
    assert_eq!(
        f.extract(0),
        Err(EraError::IndexOutOfBounds { index: 0, count: 0 })
    );
}

#[test]
fn update_add_new_empty_payload() {
    let mut f = EraFormat::default();
    let rebuilt = update_ok(
        &mut f,
        vec![UpdateItem::AddNew { name: "void".to_string(), data: Vec::new() }],
    );
    assert_eq!(rebuilt.entries[1].digest, 0);
    let mut g = EraFormat::default();
    assert!(g.open(Vec::new(), Ok(rebuilt)).is_ok());
    assert_eq!(g.item_count(), 1);
    let item = g.get_item(0).expect("item");
    assert_eq!(item.name, "void");
    assert_eq!(item.size, 0);
    assert_eq!(extract_ok(&mut g, 0), Vec::<u8>::new());
}

#[test]
fn placeholder_names_encode_positions() {
    assert_eq!(placeholder_name(0), "entry_0");
    assert_eq!(placeholder_name(7), "entry_7");
    assert_eq!(placeholder_name(10), "entry_10");
    assert_eq!(placeholder_name(907), "entry_907");
}
