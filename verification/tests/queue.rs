use roon_tui::io::transport::{QueueChange, QueueItem};
use roon_tui::queue::{apply_queue_change, apply_queue_changes, changes_fit, find_label};

fn item(id: u32, label: &str) -> QueueItem {
    QueueItem { queue_item_id: id, length: 100 + id, line1: label.to_owned(), line2: String::new() }
}

fn labels(queue: &Vec<QueueItem>) -> Vec<String> {
    queue.iter().map(|item| item.line1.clone()).collect()
}

#[test]
fn insert_splices_items_at_the_index() {
    let mut queue = vec![item(1, "A"), item(2, "B"), item(3, "C")];
    let change = QueueChange::Insert(1, vec![item(4, "X"), item(5, "Y")]);
    assert!(changes_fit(queue.len(), &vec![change.clone()]));
    apply_queue_change(&mut queue, &change);
    assert_eq!(labels(&queue), vec!["A", "X", "Y", "B", "C"]);
}

#[test]
fn insert_at_the_end_appends() {
    let mut queue = vec![item(1, "A")];
    apply_queue_change(&mut queue, &QueueChange::Insert(1, vec![item(2, "B")]));
    assert_eq!(labels(&queue), vec!["A", "B"]);
}

#[test]
fn remove_deletes_a_run_of_items() {
    let mut queue = vec![item(1, "A"), item(2, "B"), item(3, "C"), item(4, "D")];
    apply_queue_change(&mut queue, &QueueChange::Remove(1, 2));
    assert_eq!(labels(&queue), vec!["A", "D"]);
}

#[test]
fn changes_apply_to_the_queue_as_the_earlier_ones_left_it() {
    let mut queue = vec![item(1, "A"), item(2, "B"), item(3, "C")];
    let changes = vec![
        QueueChange::Remove(0, 2),
        QueueChange::Insert(1, vec![item(4, "D"), item(5, "E")]),
        QueueChange::Remove(1, 1),
    ];
    assert!(changes_fit(queue.len(), &changes));
    apply_queue_changes(&mut queue, &changes);
    assert_eq!(labels(&queue), vec!["C", "E"]);
}

#[test]
fn length_is_initial_plus_inserted_minus_removed() {
    let mut queue = vec![item(1, "A"), item(2, "B"), item(3, "C")];
    let changes = vec![
        QueueChange::Insert(3, vec![item(4, "D"), item(5, "E"), item(6, "F")]),
        QueueChange::Remove(1, 4),
        QueueChange::Insert(0, vec![item(7, "G")]),
    ];
    assert!(changes_fit(3, &changes));
    apply_queue_changes(&mut queue, &changes);
    assert_eq!(queue.len(), 3 + 4 - 4);
}

#[test]
fn the_same_changes_give_the_same_queue() {
    let start = vec![item(1, "A"), item(2, "B"), item(3, "C")];
    let changes = vec![QueueChange::Remove(2, 1), QueueChange::Insert(0, vec![item(9, "Z")])];
    let mut first = start.clone();
    let mut second = start.clone();
    apply_queue_changes(&mut first, &changes);
    apply_queue_changes(&mut second, &changes);
    assert_eq!(first, second);
    assert_eq!(labels(&first), vec!["Z", "A", "B"]);
}

#[test]
fn changes_out_of_range_do_not_fit() {
    assert!(!changes_fit(3, &vec![QueueChange::Insert(4, vec![item(1, "A")])]));
    assert!(!changes_fit(3, &vec![QueueChange::Remove(2, 2)]));
    assert!(!changes_fit(3, &vec![QueueChange::Remove(3, 1)]));
    assert!(changes_fit(3, &vec![QueueChange::Remove(0, 3)]));
    assert!(changes_fit(3, &vec![QueueChange::Remove(7, 0)]));
    assert!(!changes_fit(1, &vec![QueueChange::Remove(0, 1), QueueChange::Remove(0, 1)]));
    assert!(changes_fit(0, &vec![]));
}

#[test]
fn a_label_is_found_at_its_first_position() {
    let queue = vec![item(1, "A"), item(2, "B"), item(3, "B")];
    assert_eq!(find_label(&queue, "B"), Some(1));
    assert_eq!(find_label(&queue, "A"), Some(0));
    assert_eq!(find_label(&queue, "C"), None);
    assert_eq!(find_label(&Vec::new(), "A"), None);
}

#[test]
fn a_selected_label_is_found_again_after_a_removal_before_it() {
    let mut queue = vec![item(1, "A"), item(2, "B"), item(3, "C")];
    assert_eq!(find_label(&queue, "B"), Some(1));
    apply_queue_changes(&mut queue, &vec![QueueChange::Remove(0, 1)]);
    assert_eq!(labels(&queue), vec!["B", "C"]);
    assert_eq!(find_label(&queue, "B"), Some(0));
}
