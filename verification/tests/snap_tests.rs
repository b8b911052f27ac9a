use eve_l_preview::snap::{find_snap_position, Rect};

#[test]
fn rect_edges() {
    let r = Rect { x: 10, y: -5, width: 30, height: 20 };
    assert_eq!(r.left(), 10);
    assert_eq!(r.right(), 40);
    assert_eq!(r.top(), -5);
    assert_eq!(r.bottom(), 15);
}

#[test]
fn snap_concrete_right_edge_to_peer_left() {
    // Dragged {100,100,50,50} against peer {152,100,50,50} with threshold 5:
    // the dragged right edge (150) is 2px from the peer's left edge (152),
    // so x snaps to 102; the y axis aligns at distance 0 and stays 100.
    let dragged = Rect { x: 100, y: 100, width: 50, height: 50 };
    let peer = Rect { x: 152, y: 100, width: 50, height: 50 };
    let r = find_snap_position(dragged, &[(7, peer)], 5);
    assert_eq!(r, Some((102, 100)));
}

#[test]
fn snap_zero_threshold_disables() {
    let dragged = Rect { x: 100, y: 100, width: 50, height: 50 };
    let peer = Rect { x: 100, y: 100, width: 50, height: 50 };
    assert_eq!(find_snap_position(dragged, &[(1, peer)], 0), None);
}

#[test]
fn snap_no_peer_within_threshold_leaves_axes_unchanged() {
    let dragged = Rect { x: 0, y: 0, width: 10, height: 10 };
    let far = Rect { x: 500, y: 500, width: 10, height: 10 };
    // No edge within 5 pixels on either axis: no snap at all.
    assert_eq!(find_snap_position(dragged, &[(1, far)], 5), None);
}

#[test]
fn snap_one_axis_only_passes_other_through() {
    // Peer's left edge is 3px from the dragged right edge; vertically the
    // peer is far away, so y passes through unchanged.
    let dragged = Rect { x: 100, y: 100, width: 50, height: 50 };
    let peer = Rect { x: 153, y: 400, width: 50, height: 50 };
    assert_eq!(find_snap_position(dragged, &[(1, peer)], 5), Some((103, 100)));
}

#[test]
fn snap_closest_candidate_wins_ties_to_first() {
    let dragged = Rect { x: 100, y: 100, width: 50, height: 50 };
    // First peer: right edge at distance 4 from dragged left edge.
    let a = Rect { x: 46, y: 300, width: 50, height: 50 };
    // Second peer: left edge at distance 2 from dragged right edge — closer.
    let b = Rect { x: 152, y: 300, width: 50, height: 50 };
    assert_eq!(find_snap_position(dragged, &[(1, a), (2, b)], 5), Some((102, 100)));

    // With equal distances the earlier peer is kept.
    let c = Rect { x: 48, y: 300, width: 50, height: 50 };  // right edge at 98, distance 2
    let r = find_snap_position(dragged, &[(1, c), (2, b)], 5);
    assert_eq!(r, Some((98, 100)));
}

#[test]
fn snap_empty_peer_list_returns_none() {
    let dragged = Rect { x: 100, y: 100, width: 50, height: 50 };
    assert_eq!(find_snap_position(dragged, &[], 15), None);
}
