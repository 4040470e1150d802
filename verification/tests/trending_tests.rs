use kogan::components::{ButtonStyle, Component};
use kogan::trending::{action_row, navigate, next, previous};

#[test]
fn next_moves_forward_and_wraps() {
    assert_eq!(navigate(0, 10, "next"), Some(1));
    assert_eq!(navigate(8, 10, "next"), Some(9));
    assert_eq!(navigate(9, 10, "next"), Some(0));
    assert_eq!(navigate(0, 0, "next"), Some(0));
}

#[test]
fn previous_moves_back_and_wraps() {
    assert_eq!(navigate(5, 10, "previous"), Some(4));
    assert_eq!(navigate(0, 10, "previous"), Some(9));
    assert_eq!(navigate(0, 1, "previous"), Some(0));
}

#[test]
fn other_ids_are_ignored() {
    assert_eq!(navigate(3, 10, "animal_select"), None);
    assert_eq!(navigate(3, 10, "Next"), None);
    assert_eq!(navigate(3, 10, ""), None);
}

#[test]
fn previous_undoes_next_on_every_entry() {
    for len in 1..6usize {
        for i in 0..len {
            let n = navigate(i, len, "next").unwrap();
            assert!(n < len);
            assert_eq!(navigate(n, len, "previous"), Some(i));
            let p = navigate(i, len, "previous").unwrap();
            assert_eq!(navigate(p, len, "next"), Some(i));
        }
    }
}

#[test]
fn a_full_cycle_returns_to_the_start() {
    let len = 7usize;
    let mut i = 3usize;
    for _ in 0..len {
        i = navigate(i, len, "next").unwrap();
    }
    assert_eq!(i, 3);
}

#[test]
fn navigation_buttons() {
    let n = next();
    assert_eq!(n.custom_id, "next");
    assert_eq!(n.label, "Next");
    assert_eq!(n.style, ButtonStyle::Success);
    assert_eq!(n.emoji, None);
    let p = previous();
    assert_eq!(p.custom_id, "previous");
    assert_eq!(p.label, "Previous");
    let row = action_row();
    assert_eq!(row.components.len(), 2);
    assert!(matches!(&row.components[0], Component::Button(b) if b.custom_id == "previous"));
    assert!(matches!(&row.components[1], Component::Button(b) if b.custom_id == "next"));
}
