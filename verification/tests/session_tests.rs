use tacview_live::engine::{apply_to_session, TacviewState};
use tacview_live::object_map::ObjectMap;
use tacview_live::object::TacviewObject;
use tacview_live::records::{Header, ObjectProperty, Record};
use tacview_live::tasks::TaskSlot;

fn header() -> Header {
    Header {
        file_type: "text/acmi/tacview".to_string(),
        file_version: "2.2".to_string(),
    }
}

#[test]
fn the_first_record_lazily_initializes_the_session() {
    let mut session: Option<TacviewState> = None;
    apply_to_session(
        &mut session,
        &header(),
        Record::Update(1, vec![ObjectProperty::Name("A".to_string())]),
    );
    let s = session.as_ref().expect("session created");
    assert_eq!(s.header.file_type, "text/acmi/tacview");
    assert_eq!(s.header.file_version, "2.2");
    assert_eq!(s.objects.len(), 1);

    apply_to_session(
        &mut session,
        &header(),
        Record::Update(2, vec![ObjectProperty::Name("B".to_string())]),
    );
    let s = session.as_ref().expect("session kept");
    assert_eq!(s.objects.len(), 2);
}

#[test]
fn object_map_insert_get_take() {
    let mut m = ObjectMap::new();
    assert!(!m.contains(4));
    m.insert_new(4, TacviewObject::new());
    assert!(m.contains(4));
    assert_eq!(m.len(), 1);
    assert!(m.get(4).is_some());
    assert!(m.get(5).is_none());
    let taken = m.take(4);
    assert!(taken.is_some());
    assert!(m.get(4).is_none());
    assert!(m.take(4).is_none());
    assert_eq!(m.len(), 0);
}

#[test]
fn a_task_slot_holds_exactly_the_latest_installed_task() {
    let rt = tokio::runtime::Runtime::new().expect("runtime");
    let mut slot = TaskSlot::new();
    assert!(!slot.is_installed());

    let first = rt.spawn(std::future::pending::<()>());
    slot.install(first);
    assert!(slot.is_installed());

    let second = rt.spawn(std::future::pending::<()>());
    slot.install(second);
    assert!(slot.is_installed());

    let installed = slot.handle.as_ref().expect("handle installed");
    rt.block_on(async {
        tokio::time::sleep(std::time::Duration::from_millis(20)).await;
    });
    // The first task was cancelled by the second install; the slot's one
    // remaining handle is the second task, still running.
    assert!(!installed.is_finished());

    slot.cancel();
    rt.block_on(async {
        tokio::time::sleep(std::time::Duration::from_millis(20)).await;
    });
    assert!(slot.handle.as_ref().expect("handle stays").is_finished());
    assert!(slot.is_installed());
}
