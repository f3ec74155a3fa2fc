use bacnet_objects::state_text::complex::SyncStateText;
use bacnet_objects::state_text::{StateText, StateTextError, StateTextMut};
use bacnet_objects::text_cell::{read_text_cell, write_text_cell};

fn seeded() -> SyncStateText {
    SyncStateText::new(
        1,
        vec!["normal".to_string(), "alarm".to_string()],
    )
}

#[test]
fn list_scenario_on_sync_list() {
    let mut list = seeded();
    assert_eq!(list.number_of_states(), 2);

    assert_eq!(list.append_text("offline".to_string()).unwrap(), 3);
    assert_eq!(list.number_of_states(), 3);
    assert_eq!(list.get_text(2).unwrap(), "offline");
    assert_eq!(list.get_text(0).unwrap(), "normal");
    assert_eq!(list.get_text(1).unwrap(), "alarm");

    assert_eq!(list.set_state(0, "ok".to_string()).unwrap().unwrap(), "normal");
    assert_eq!(list.get_text(0).unwrap(), "ok");

    assert_eq!(list.pop_text().unwrap().unwrap(), "offline");
    assert_eq!(list.number_of_states(), 2);
}

#[test]
fn list_scenario_on_plain_vec() {
    let mut list: Vec<String> = vec!["normal".to_string(), "alarm".to_string()];
    assert_eq!(StateText::number_of_states(&list), 2);

    assert_eq!(list.append_text("offline".to_string()).unwrap(), 3);
    assert_eq!(StateText::get_text(&list, 2).unwrap(), "offline");

    assert_eq!(list.set_state(0, "ok".to_string()).unwrap().unwrap(), "normal");
    assert_eq!(StateText::get_text(&list, 0).unwrap(), "ok");

    assert_eq!(list.pop_text().unwrap().unwrap(), "offline");
    assert_eq!(StateText::number_of_states(&list), 2);
}

#[test]
fn list_scenario_behind_outer_lock() {
    let mut shared = seeded().into_shared();
    assert_eq!(shared.number_of_states(), 2);

    assert_eq!(shared.append_text("offline".to_string()).unwrap(), 3);
    assert_eq!(shared.get_text(2).unwrap(), "offline");
    assert_eq!(shared.get_text(0).unwrap(), "normal");
    assert_eq!(shared.get_text(1).unwrap(), "alarm");

    assert_eq!(shared.set_state(0, "ok".to_string()).unwrap().unwrap(), "normal");
    assert_eq!(shared.get_text(0).unwrap(), "ok");

    assert_eq!(shared.pop_text().unwrap().unwrap(), "offline");
    assert_eq!(shared.number_of_states(), 2);
}

#[test]
fn reads_out_of_range_are_rejected() {
    let list = seeded();
    assert!(matches!(list.get_text(2), Err(StateTextError::OutOfRange)));
    assert!(matches!(list.get_text(1000), Err(StateTextError::OutOfRange)));

    let mut list = seeded();
    assert!(matches!(
        list.set_state(2, "x".to_string()),
        Err(StateTextError::OutOfRange)
    ));
}

#[test]
fn pop_of_still_shared_entry_is_a_signalled_no_op() {
    let mut list = SyncStateText::new(9, vec!["kept".to_string()]);
    let handle = list.entry_handle(0).unwrap();

    assert!(matches!(list.pop_text(), Err(StateTextError::StillShared)));
    assert_eq!(list.number_of_states(), 1);
    assert_eq!(list.get_text(0).unwrap(), "kept");

    drop(handle);
    assert_eq!(list.pop_text().unwrap().unwrap(), "kept");
    assert_eq!(list.number_of_states(), 0);
}

#[test]
fn pop_of_empty_list_yields_nothing() {
    let mut list = SyncStateText::new(0, Vec::new());
    assert_eq!(list.pop_text().unwrap(), None);
    assert_eq!(list.number_of_states(), 0);
}

#[test]
fn entry_handle_reads_and_writes_one_entry_independently() {
    let mut list = seeded();
    let handle = list.entry_handle(1).unwrap();

    assert_eq!(list.set_state(0, "ok".to_string()).unwrap().unwrap(), "normal");
    assert_eq!(list.get_text(1).unwrap(), "alarm");

    write_text_cell(&handle, "evacuate".to_string());
    assert_eq!(list.get_text(1).unwrap(), "evacuate");
    assert_eq!(read_text_cell(&handle), "evacuate");
    assert_eq!(list.get_text(0).unwrap(), "ok");
    drop(handle);

    assert!(matches!(list.entry_handle(2), Err(StateTextError::OutOfRange)));
}

#[test]
fn reference_number_is_kept() {
    let mut list = SyncStateText::new(33, vec!["test".to_string()]);
    assert_eq!(list.reference_number(), 33);
    list.append_text("more".to_string()).unwrap();
    assert_eq!(list.reference_number(), 33);
}
