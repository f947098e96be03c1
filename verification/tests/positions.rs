use sunbeam_kanban::position::{
    close_gap, displace, find_slot, move_slot, next_position, open_slot, renumber, Slot,
};
use sunbeam_kanban::text::{decimal_of, text_after_last, trim, trim_end_matches, zero_padded_of};

fn slots(list: &[(&str, i32)]) -> Vec<Slot> {
    list.iter().map(|(id, p)| Slot { id: id.to_string(), position: *p }).collect()
}

fn at(slots: &[Slot]) -> Vec<i32> {
    slots.iter().map(|x| x.position).collect()
}

#[test]
fn the_end_lies_behind_the_highest_position() {
    assert_eq!(next_position(&slots(&[])), Some(0));
    assert_eq!(next_position(&slots(&[("a", -7)])), Some(-6));
    assert_eq!(next_position(&slots(&[("a", 2), ("b", 9), ("c", 4)])), Some(10));
    assert_eq!(next_position(&slots(&[("a", i32::MAX)])), None);
}

#[test]
fn opening_and_closing_undo_each_other() {
    let before = slots(&[("a", 0), ("b", 1), ("c", 2)]);
    let opened = open_slot(&before, 1).expect("room");
    assert_eq!(at(&opened), vec![0, 2, 3]);
    assert_eq!(at(&close_gap(&opened, 1)), vec![0, 1, 2]);
    assert!(open_slot(&slots(&[("a", i32::MAX)]), 0).is_none());
}

#[test]
fn moving_there_and_back_changes_nothing() {
    let before = slots(&[("a", 0), ("b", 1), ("c", 2), ("d", 3)]);
    for k in 0..4 {
        for to in 0..4 {
            let moved = move_slot(&before, k, to);
            let mut sorted = at(&moved);
            sorted.sort();
            assert_eq!(sorted, vec![0, 1, 2, 3]);
            assert_eq!(moved[k].position, to);
            assert_eq!(at(&move_slot(&moved, k, before[k].position)), vec![0, 1, 2, 3]);
        }
    }
    assert_eq!(at(&displace(&before, 0, 2)), vec![0, 0, 1, 3]);
}

#[test]
fn moving_behind_the_end_leaves_a_gap() {
    assert_eq!(at(&move_slot(&slots(&[("a", 0), ("b", 1)]), 0, 9)), vec![9, 0]);
}

#[test]
fn renumbering_keeps_the_order() {
    let before = slots(&[("a", 7), ("b", -1), ("c", 7), ("d", 3)]);
    assert_eq!(at(&renumber(&before)), vec![2, 0, 3, 1]);
    assert_eq!(at(&renumber(&slots(&[("a", 1), ("b", 0)]))), vec![1, 0]);
}

#[test]
fn members_are_found_by_id() {
    let list = slots(&[("a", 0), ("b", 1)]);
    assert_eq!(find_slot(&list, &"b".to_string()), Some(1));
    assert_eq!(find_slot(&list, &"x".to_string()), None);
}

#[test]
fn numbers_are_written_out() {
    assert_eq!(decimal_of(0), "0");
    assert_eq!(decimal_of(-10), "-10");
    assert_eq!(decimal_of(i64::MIN), "-9223372036854775808");
    assert_eq!(decimal_of(i64::MAX), "9223372036854775807");
    assert_eq!(zero_padded_of(0, 3), "000");
    assert_eq!(zero_padded_of(42, 3), "042");
    assert_eq!(zero_padded_of(-4, 3), "-04");
    assert_eq!(zero_padded_of(12345, 3), "12345");
    for n in [0, 7, 99, 100, -1, -99, -100, i32::MIN, i32::MAX] {
        assert_eq!(zero_padded_of(n, 3), format!("{n:03}"));
    }
}

#[test]
fn texts_are_cut() {
    for text in ["", " ", " a b ", "\u{2003}x\u{85}", "x"] {
        assert_eq!(trim(text), text.trim());
    }
    assert_eq!(trim_end_matches("a//b//", '/'), "a//b");
    assert_eq!(trim_end_matches("///", '/'), "");
    for text in ["", "x", "/repos/", "a/repos/b", "a/repos/b/repos/c", "/repos/repos/"] {
        assert_eq!(Some(text_after_last(text, "/repos/").as_str()), text.rsplit("/repos/").next());
    }
}
