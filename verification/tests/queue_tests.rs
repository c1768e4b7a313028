use docker_queue::client::{added_message, check_response_status, prepare_entry};
use docker_queue::domain::{IdGenerator, QueuedContainer, Status};
use docker_queue::errors::QueueError;
use docker_queue::list_containers::{Container, ContainerSummary, RunningContainer};
use docker_queue::state::State;

fn entry(id: u64, command: &str) -> QueuedContainer {
    QueuedContainer::new(id, command.to_string()).expect("non-empty command is accepted")
}

fn queued_entry(id: u64, command: &str) -> QueuedContainer {
    let mut e = entry(id, command);
    e.queue();
    e
}

fn summary(id: &str, image: &str) -> ContainerSummary {
    ContainerSummary { id: id.to_string(), image: image.to_string() }
}

#[test]
fn new_entry_starts_paused() {
    let e = entry(1, "echo hi");
    assert_eq!(e.id(), 1);
    assert_eq!(e.status(), Status::Paused);
    assert_eq!(e.command(), "echo hi");
}

#[test]
fn empty_command_is_rejected() {
    let r = QueuedContainer::new(1, String::new());
    assert_eq!(r.err(), Some(QueueError::ValidationError));
}

#[test]
fn release_is_idempotent() {
    let mut once = entry(3, "echo hi");
    once.queue();
    let mut twice = entry(3, "echo hi");
    twice.queue();
    twice.queue();
    assert_eq!(once.status(), Status::Queued);
    assert_eq!(twice.status(), Status::Queued);
    assert_eq!(once.id(), twice.id());
    assert_eq!(once.command(), twice.command());
}

#[test]
fn from_contents_matches_new() {
    let a = QueuedContainer::new(9, "echo hi".to_string()).unwrap();
    let b = QueuedContainer::from_contents(9, "echo hi".to_string()).unwrap();
    assert_eq!(a.id(), b.id());
    assert_eq!(a.status(), b.status());
    assert_eq!(a.command(), b.command());
}

#[test]
fn from_contents_rejects_empty_text() {
    let r = QueuedContainer::from_contents(9, String::new());
    assert_eq!(r.err(), Some(QueueError::ValidationError));
}

#[test]
fn id_generator_issues_distinct_ids() {
    let mut gen = IdGenerator::new();
    let a = gen.fresh_id();
    let b = gen.fresh_id();
    let c = gen.fresh_id();
    assert_ne!(a, b);
    assert_ne!(b, c);
    assert_ne!(a, c);
}

#[test]
fn admission_is_fifo_and_skips_paused() {
    let mut st = State::new();
    st.enqueue(entry(1, "sleep 1"));
    st.enqueue(queued_entry(2, "sleep 2"));
    st.enqueue(entry(3, "sleep 3"));
    st.enqueue(queued_entry(4, "sleep 4"));

    let first = st.try_admit_next().expect("an entry is queued");
    assert_eq!(first.id(), 2);
    let second = st.try_admit_next().expect("another entry is queued");
    assert_eq!(second.id(), 4);
    assert!(st.try_admit_next().is_none());

    // the paused entries stay in the queue, in their order
    let rest = st.snapshot_queue();
    assert_eq!(rest.len(), 2);
    assert_eq!(rest[0].id(), 1);
    assert_eq!(rest[1].id(), 3);
}

#[test]
fn later_arrival_never_overtakes() {
    let mut st = State::new();
    st.enqueue(queued_entry(1, "sleep 1"));
    st.enqueue(queued_entry(2, "sleep 2"));
    assert_eq!(st.try_admit_next().unwrap().id(), 1);
    st.enqueue(queued_entry(3, "sleep 3"));
    assert_eq!(st.try_admit_next().unwrap().id(), 2);
    assert_eq!(st.try_admit_next().unwrap().id(), 3);
    assert!(st.try_admit_next().is_none());
}

#[test]
fn occupied_slot_blocks_admission() {
    let mut st = State::new();
    st.enqueue(queued_entry(1, "sleep 1"));
    st.occupy_slot("cid-running".to_string());
    assert!(st.try_admit_next().is_none());
    st.clear_slot();
    let e = st.try_admit_next().expect("slot is free again");
    assert_eq!(e.id(), 1);
}

#[test]
fn slot_snapshots_follow_occupy_and_clear() {
    let mut st = State::new();
    assert_eq!(st.snapshot_running_id(), None);
    st.occupy_slot("cid-7".to_string());
    assert_eq!(st.snapshot_running_id(), Some("cid-7".to_string()));
    st.clear_slot();
    assert_eq!(st.snapshot_running_id(), None);
}

#[test]
fn listing_one_paused_entry_shows_one_queued_nothing_running() {
    let mut st = State::new();
    st.enqueue(entry(1, "echo hi"));
    let listing = st.get_containers(Vec::new());
    assert_eq!(listing.len(), 1);
    match &listing[0] {
        Container::Queued(e) => {
            assert_eq!(e.id(), 1);
            assert_eq!(e.status(), Status::Paused);
        }
        Container::Running(_) => panic!("nothing was admitted, nothing may be running"),
    }
}

#[test]
fn listing_tags_slot_occupant_managed() {
    let mut st = State::new();
    st.occupy_slot("cid-a".to_string());
    let listing = st.get_containers(vec![summary("cid-a", "alpine")]);
    assert_eq!(listing.len(), 1);
    match &listing[0] {
        Container::Running(RunningContainer::Managed(s)) => assert_eq!(s.id, "cid-a"),
        _ => panic!("the slot occupant must be tagged as queue-managed"),
    }
}

#[test]
fn listing_tags_outside_container_external() {
    // a container started directly via the runtime daemon, never admitted here
    let mut st = State::new();
    let listing = st.get_containers(vec![summary("cid-outside", "alpine")]);
    assert_eq!(listing.len(), 1);
    match &listing[0] {
        Container::Running(RunningContainer::External(s)) => assert_eq!(s.id, "cid-outside"),
        _ => panic!("an outside container must never be tagged as queue-managed"),
    }
    // the same still holds while the slot is occupied by a different id
    st.occupy_slot("cid-ours".to_string());
    let listing = st.get_containers(vec![summary("cid-outside", "alpine")]);
    match &listing[0] {
        Container::Running(RunningContainer::External(s)) => assert_eq!(s.id, "cid-outside"),
        _ => panic!("an outside container must never be tagged as queue-managed"),
    }
}

#[test]
fn listing_orders_running_before_queued() {
    let mut st = State::new();
    st.enqueue(queued_entry(1, "echo a"));
    st.enqueue(entry(2, "echo b"));
    st.occupy_slot("cid-a".to_string());
    let listing = st.get_containers(vec![summary("cid-x", "alpine"), summary("cid-a", "alpine")]);
    assert_eq!(listing.len(), 4);
    assert!(matches!(&listing[0], Container::Running(RunningContainer::External(s)) if s.id == "cid-x"));
    assert!(matches!(&listing[1], Container::Running(RunningContainer::Managed(s)) if s.id == "cid-a"));
    assert!(matches!(&listing[2], Container::Queued(e) if e.id() == 1));
    assert!(matches!(&listing[3], Container::Queued(e) if e.id() == 2));
}

#[test]
fn prepare_entry_releases_unless_paused() {
    let released = prepare_entry(1, "echo hi".to_string(), false).unwrap();
    assert_eq!(released.status(), Status::Queued);
    let paused = prepare_entry(2, "echo hi".to_string(), true).unwrap();
    assert_eq!(paused.status(), Status::Paused);
    let rejected = prepare_entry(3, String::new(), false);
    assert_eq!(rejected.err(), Some(QueueError::ValidationError));
}

#[test]
fn status_labels() {
    assert_eq!(Status::Paused.label(), "Paused");
    assert_eq!(Status::Queued.label(), "Queued");
}

#[test]
fn added_message_renders_id_and_status() {
    assert_eq!(added_message(7, Status::Queued), "Container \"7\" added to queue (Queued)");
    assert_eq!(added_message(0, Status::Paused), "Container \"0\" added to queue (Paused)");
    assert_eq!(
        added_message(1234567890, Status::Paused),
        "Container \"1234567890\" added to queue (Paused)"
    );
    assert_eq!(
        added_message(u64::MAX, Status::Queued),
        "Container \"18446744073709551615\" added to queue (Queued)"
    );
}

#[test]
fn response_status_judgement() {
    assert!(check_response_status(200).is_ok());
    assert!(check_response_status(201).is_ok());
    assert!(check_response_status(299).is_ok());
    assert_eq!(check_response_status(199).err(), Some(QueueError::ServerStatusError(199)));
    assert_eq!(check_response_status(404).err(), Some(QueueError::ServerStatusError(404)));
    assert_eq!(check_response_status(500).err(), Some(QueueError::ServerStatusError(500)));
}
