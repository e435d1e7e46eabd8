use randao::campaign_ids::{
    campaign_id_line, campaign_ids_from_text, campaign_ids_path, campaign_status_path, campaign_ids_text, read_campaign_ids,
    remove_campaign_id,
};

#[test]
fn test_campaign_id_store_and_remove() {
    let campaign_id1 = 1u128;
    let campaign_id2 = 2u128;
    let campaign_id3 = 3u128;

    let mut file = String::new();
    file.push_str(&campaign_id_line(campaign_id1));
    file.push_str(&campaign_id_line(campaign_id2));
    file.push_str(&campaign_id_line(campaign_id3));

    let campaign_ids = read_campaign_ids(&file);
    assert_eq!(campaign_ids.len(), 3);
    assert!(campaign_ids.contains(&campaign_id1));
    assert!(campaign_ids.contains(&campaign_id2));
    assert!(campaign_ids.contains(&campaign_id3));

    let kept = remove_campaign_id(&campaign_ids, campaign_id2);
    let file = campaign_ids_text(&kept);

    let campaign_ids = read_campaign_ids(&file);
    assert_eq!(campaign_ids.len(), 2);
    assert!(campaign_ids.contains(&campaign_id1));
    assert!(!campaign_ids.contains(&campaign_id2));
    assert!(campaign_ids.contains(&campaign_id3));
}

#[test]
fn campaign_id_line_is_decimal_and_newline() {
    assert_eq!(campaign_id_line(0), "0\n");
    assert_eq!(campaign_id_line(340282366920938463463374607431768211455), "340282366920938463463374607431768211455\n");
}

#[test]
fn campaign_ids_text_roundtrip() {
    let ids = vec![12u128, 0, 7, 12, u128::MAX];
    let text = campaign_ids_text(&ids);
    assert_eq!(text, format!("12\n0\n7\n12\n{}\n", u128::MAX));
    assert_eq!(campaign_ids_from_text(&text), Some(ids));
}

#[test]
fn campaign_ids_skip_empty_lines() {
    assert_eq!(campaign_ids_from_text(""), Some(vec![]));
    assert_eq!(campaign_ids_from_text("\n\n5\n\n+6"), Some(vec![5, 6]));
}

#[test]
fn campaign_ids_reject_bad_lines() {
    assert_eq!(campaign_ids_from_text("5\nx\n"), None);
    assert_eq!(campaign_ids_from_text("5\r\n"), None);
    assert_eq!(campaign_ids_from_text("-1\n"), None);
    assert_eq!(campaign_ids_from_text("+\n"), None);
    assert_eq!(campaign_ids_from_text("340282366920938463463374607431768211456\n"), None);
}

#[test]
fn remove_campaign_id_keeps_order_and_others() {
    assert_eq!(remove_campaign_id(&vec![4, 2, 4, 9], 4), vec![2, 9]);
    assert_eq!(remove_campaign_id(&vec![4, 2], 5), vec![4, 2]);
}

#[test]
fn file_paths_in_the_campaign_directory() {
    assert_eq!(campaign_ids_path("/tmp/randao/"), "/tmp/randao/campaign_ids.txt");
    assert_eq!(campaign_status_path("/tmp/randao/", 42), "/tmp/randao/42.json");
    assert_eq!(campaign_status_path("", 0), "0.json");
}

#[test]
fn appending_a_line_extends_the_list() {
    let mut text = String::from("1\n\n2\n");
    text.push_str(&campaign_id_line(7));
    assert_eq!(campaign_ids_from_text(&text), Some(vec![1, 2, 7]));
    let mut empty = String::new();
    empty.push_str(&campaign_id_line(0));
    assert_eq!(campaign_ids_from_text(&empty), Some(vec![0]));
}

#[test]
fn storing_then_removing_restores_the_list() {
    let v = vec![3u128, 1, 4];
    let mut stored = v.clone();
    stored.push(9);
    let restored = remove_campaign_id(&stored, 9);
    assert_eq!(restored, v);
    assert_eq!(remove_campaign_id(&restored, 9), v);
    let once = remove_campaign_id(&vec![1, 2, 1, 3], 1);
    assert_eq!(once, vec![2, 3]);
    assert_eq!(remove_campaign_id(&once, 1), once);
}
