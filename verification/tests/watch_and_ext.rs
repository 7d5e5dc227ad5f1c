//! Tests for the watch decision rule and the array/slice extensions.

use fj_core::ext::{ArrayExt, SliceExt};
use fj_core::watch::{should_trigger_evaluation, WatchEventKind};

#[test]
fn modifications_trigger_evaluation() {
    assert!(should_trigger_evaluation(&WatchEventKind::ModifyAny, None));
    assert!(should_trigger_evaluation(&WatchEventKind::ModifyDataAny, None));
    assert!(should_trigger_evaluation(&WatchEventKind::ModifyDataContent, None));
    assert!(!should_trigger_evaluation(&WatchEventKind::Other, None));
}

#[test]
fn editor_temp_files_do_not_trigger_evaluation() {
    let swp = b"swp".to_vec();
    let tmp = b"tmp".to_vec();
    let swx = b"swx".to_vec();
    let model = b"fj".to_vec();

    assert!(!should_trigger_evaluation(&WatchEventKind::ModifyDataContent, Some(&swp)));
    assert!(!should_trigger_evaluation(&WatchEventKind::ModifyAny, Some(&tmp)));
    assert!(!should_trigger_evaluation(&WatchEventKind::ModifyDataAny, Some(&swx)));
    assert!(should_trigger_evaluation(&WatchEventKind::ModifyDataContent, Some(&model)));
    assert!(!should_trigger_evaluation(&WatchEventKind::Other, Some(&model)));
}

#[test]
fn try_map_maps_every_element() {
    let doubled: Result<[u8; 2], u8> = [1u8, 2u8].try_map_ext(|x: u8| Ok(x * 2));
    assert_eq!(doubled.unwrap(), [2, 4]);

    let failed: Result<[u8; 4], u8> =
        [1u8, 2, 3, 4].try_map_ext(|x: u8| if x < 3 { Ok(x) } else { Err(x) });
    assert_eq!(failed.unwrap_err(), 3);
}

#[test]
fn zip_pairs_elements_positionally() {
    assert_eq!([1u8, 2u8].zip_ext([10u8, 20u8]), [(1, 10), (2, 20)]);
    assert_eq!(
        [1u8, 2, 3, 4].zip_ext([9u8, 8, 7, 6]),
        [(1, 9), (2, 8), (3, 7), (4, 6)],
    );
}

#[test]
fn chunks_walk_without_overlap() {
    let data = [1u8, 2, 3, 4, 5];
    let slice = &data[..];
    let mut chunks = slice.array_chunks_ext(2);
    assert_eq!(chunks.next(), Some(&[1u8, 2][..]));
    assert_eq!(chunks.next(), Some(&[3u8, 4][..]));
    assert_eq!(chunks.next(), None);
}

#[test]
fn windows_walk_with_overlap() {
    let data = [1u8, 2, 3];
    let slice = &data[..];
    let mut windows = slice.array_windows_ext(2);
    assert_eq!(windows.next(), Some(&[1u8, 2][..]));
    assert_eq!(windows.next(), Some(&[2u8, 3][..]));
    assert_eq!(windows.next(), None);
}
