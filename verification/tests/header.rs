use ap_project_rustaceans_wit_attitudes::network::SourceRoutingHeader;

fn header(hops: &[u8], hop_index: usize) -> SourceRoutingHeader {
    SourceRoutingHeader::new(hops.to_vec(), hop_index)
}

#[test]
fn new_keeps_hops_and_cursor() {
    let h = SourceRoutingHeader::new(vec![4, 5, 6], 2);
    assert_eq!(h.hops, vec![4, 5, 6]);
    assert_eq!(h.hop_index, 2);
}

#[test]
fn hops_around_the_cursor() {
    let h = header(&[10, 20, 30, 40], 1);
    assert_eq!(h.previous_hop(), Some(10));
    assert_eq!(h.current_hop(), Some(20));
    assert_eq!(h.next_hop(), Some(30));
    assert!(!h.is_last_hop());
}

#[test]
fn cursor_on_first_hop_has_no_previous_hop() {
    let h = header(&[10, 20, 30], 0);
    assert_eq!(h.previous_hop(), None);
    assert_eq!(h.current_hop(), Some(10));
    assert_eq!(h.next_hop(), Some(20));
}

#[test]
fn cursor_on_last_hop_has_no_next_hop() {
    let h = header(&[10, 20, 30], 2);
    assert!(h.is_last_hop());
    assert_eq!(h.current_hop(), Some(30));
    assert_eq!(h.next_hop(), None);
    assert_eq!(h.previous_hop(), Some(20));
}

#[test]
fn cursor_just_behind_the_path() {
    let h = header(&[10, 20, 30], 3);
    assert_eq!(h.current_hop(), None);
    assert_eq!(h.next_hop(), None);
    assert_eq!(h.previous_hop(), Some(30));
    assert!(!h.is_last_hop());
}

#[test]
fn cursor_far_off_the_path() {
    let h = header(&[10, 20, 30], usize::MAX);
    assert_eq!(h.current_hop(), None);
    assert_eq!(h.next_hop(), None);
    assert_eq!(h.previous_hop(), None);
    assert!(!h.is_last_hop());
    assert_eq!(h.reversed(), None);
}

#[test]
fn empty_path_has_no_hops() {
    let h = header(&[], 0);
    assert_eq!(h.current_hop(), None);
    assert_eq!(h.next_hop(), None);
    assert_eq!(h.previous_hop(), None);
    assert!(!h.is_last_hop());
    assert_eq!(h.reversed(), None);
}

#[test]
fn increase_hop_index_moves_the_cursor_by_one() {
    let mut h = header(&[1, 2, 3], 1);
    h.increase_hop_index();
    assert_eq!(h, header(&[1, 2, 3], 2));
    assert_eq!(h.current_hop(), Some(3));
}

#[test]
fn append_hop_extends_the_path() {
    let mut h = header(&[1, 2], 1);
    h.append_hop(9);
    assert_eq!(h, header(&[1, 2, 9], 1));
}

#[test]
fn reversal_takes_the_traversed_hops_backwards() {
    let h = header(&[1, 11, 12, 21], 2);
    assert_eq!(h.reversed(), Some(header(&[12, 11, 1], 1)));
}

#[test]
fn reversal_at_the_end_of_the_path_takes_all_hops() {
    let h = header(&[1, 2, 3], 2);
    assert_eq!(h.reversed(), Some(header(&[3, 2, 1], 1)));
}

#[test]
fn reversal_leaves_the_header_alone_and_repeats() {
    let h = header(&[1, 11, 12, 21], 1);
    let first = h.reversed();
    let second = h.reversed();
    assert_eq!(h, header(&[1, 11, 12, 21], 1));
    assert_eq!(first, second);
    assert_eq!(first, Some(header(&[11, 1], 1)));
}

#[test]
fn reversed_header_points_at_the_previous_hop() {
    let h = header(&[7, 8, 9, 10], 2);
    let back = h.reversed().unwrap();
    assert_eq!(back.hop_index, 1);
    assert_eq!(back.hops[0], 9);
    assert_eq!(back.current_hop(), h.previous_hop());
    assert_eq!(back.current_hop(), Some(8));
}

#[test]
fn reversal_at_the_sender_has_nowhere_to_go() {
    let h = header(&[5, 6, 7], 0);
    let back = h.reversed().unwrap();
    assert_eq!(back, header(&[5], 1));
    assert_eq!(back.current_hop(), None);
}

#[test]
fn clone_is_equal() {
    let h = header(&[3, 1, 4, 1, 5], 3);
    assert_eq!(h.clone(), h);
}
