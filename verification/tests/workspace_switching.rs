use gadgets::switching::{find_active, switch_by};
use gadgets::workspace::Workspace;

fn desk(count: usize, active: usize) -> Vec<Workspace> {
    (0..count)
        .map(|i| Workspace {
            active: i == active,
            idx: i,
            dg: None,
            vp: None,
            available_area: None,
            name: format!("w{}", i),
        })
        .collect()
}

#[test]
fn steps_to_the_right_and_left() {
    assert_eq!(switch_by(&desk(4, 1), 1, true), 2);
    assert_eq!(switch_by(&desk(4, 1), -1, true), 0);
    assert_eq!(switch_by(&desk(4, 1), 2, false), 3);
    assert_eq!(switch_by(&desk(4, 1), 0, false), 1);
}

#[test]
fn cycling_comes_back_in_at_the_other_end() {
    assert_eq!(switch_by(&desk(4, 3), 1, true), 0);
    assert_eq!(switch_by(&desk(4, 0), -1, true), 3);
    assert_eq!(switch_by(&desk(4, 2), 9, true), 3);
    assert_eq!(switch_by(&desk(4, 2), -9, true), 1);
    assert_eq!(switch_by(&desk(4, 0), -8, true), 0);
    assert_eq!(switch_by(&desk(1, 0), 5, true), 0);
}

#[test]
fn without_cycling_the_walk_stops_at_the_ends() {
    assert_eq!(switch_by(&desk(4, 3), 1, false), 3);
    assert_eq!(switch_by(&desk(4, 0), -1, false), 0);
    assert_eq!(switch_by(&desk(4, 2), isize::MAX, false), 3);
    assert_eq!(switch_by(&desk(4, 2), isize::MIN, false), 0);
}

#[test]
fn the_sum_wraps_around_when_cycling() {
    // 2 + isize::MAX wraps to isize::MIN + 1; its remainder by 3 is taken from there.
    let wrapped = 2isize.wrapping_add(isize::MAX);
    let expected = wrapped.rem_euclid(3) as usize;
    assert_eq!(switch_by(&desk(3, 2), isize::MAX, true), expected);
}

#[test]
fn the_first_active_workspace_counts_and_its_own_index_is_used() {
    let mut list = desk(5, 2);
    list[4].active = true;
    assert_eq!(find_active(&list), Some(2));
    assert_eq!(switch_by(&list, 1, true), 3);
    list[2].idx = 7;
    assert_eq!(switch_by(&list, 1, true), 3);
    assert_eq!(switch_by(&list, 1, false), 4);
    assert_eq!(find_active(&desk(3, 9)), None);
    assert_eq!(find_active(&Vec::new()), None);
}
