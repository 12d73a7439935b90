use status_timeline::environment::storage::Storage;
use status_timeline::environment::types::TimelineDirection::{NewestTop, OldestTop};
use status_timeline::environment::SharedCache;
use status_timeline::status::Status;
use status_timeline::timeline::merge::{contains_id, merge, project};
use status_timeline::view_model::{StatusId, StatusViewModel};

fn raw(id: &str, content: &str) -> Status {
    Status { id: id.to_string(), content: content.to_string() }
}

fn shown(id: &str, content: &str) -> StatusViewModel {
    StatusViewModel { id: StatusId(id.to_string()), content: content.to_string() }
}

fn reversed(mut models: Vec<StatusViewModel>) -> Vec<StatusViewModel> {
    models.reverse();
    models
}

#[test]
fn view_model_stands_for_the_same_status() {
    let projected = StatusViewModel::new(&raw("42", "<p>hello</p>"));
    assert_eq!(projected.id, StatusId("42".to_string()));
    assert_eq!(projected.content, "<p>hello</p>");
    let empty = StatusViewModel::new(&raw("", ""));
    assert_eq!(empty, shown("", ""));
}

#[test]
fn clones_are_equal_to_their_source() {
    let status = raw("1", "one");
    assert_eq!(status.clone(), status);
    let model = shown("2", "two");
    assert_eq!(model.clone(), model);
    let id = StatusId("3".to_string());
    assert_eq!(id.clone(), id);
    let direction = OldestTop;
    assert_eq!(direction.clone(), OldestTop);
    assert_ne!(NewestTop, OldestTop);
}

#[test]
fn project_keeps_each_status_in_its_place() {
    assert_eq!(project(&[]), vec![]);
    assert_eq!(
        project(&[raw("B", "b"), raw("A", "a"), raw("B", "again")]),
        vec![shown("B", "b"), shown("A", "a"), shown("B", "again")]
    );
}

#[test]
fn contains_id_compares_whole_identifiers() {
    let slot = vec![shown("10", "x"), shown("2", "y")];
    assert!(contains_id(&slot, &StatusId("10".to_string())));
    assert!(contains_id(&slot, &StatusId("2".to_string())));
    assert!(!contains_id(&slot, &StatusId("1".to_string())));
    assert!(!contains_id(&slot, &StatusId("".to_string())));
    assert!(!contains_id(&slot, &StatusId("x".to_string())));
    assert!(!contains_id(&vec![], &StatusId("10".to_string())));
}

#[test]
fn incremental_load_appends_at_the_tail_when_newest_is_on_top() {
    let mut slot = vec![shown("A", "a"), shown("B", "b")];
    merge(&mut slot, &[raw("B", "b"), raw("C", "c")], NewestTop, false);
    assert_eq!(slot, vec![shown("A", "a"), shown("B", "b"), shown("C", "c")]);
}

#[test]
fn incremental_load_prepends_at_the_head_when_oldest_is_on_top() {
    let mut slot = vec![shown("B", "b"), shown("A", "a")];
    merge(&mut slot, &[raw("B", "b"), raw("C", "c"), raw("D", "d")], OldestTop, false);
    assert_eq!(slot, vec![shown("D", "d"), shown("C", "c"), shown("B", "b"), shown("A", "a")]);
}

#[test]
fn reload_puts_the_batch_at_the_tail_when_oldest_is_on_top() {
    let mut slot = vec![shown("A", "a"), shown("B", "b"), shown("C", "c")];
    merge(&mut slot, &[raw("E", "e"), raw("D", "d"), raw("B", "edited")], OldestTop, true);
    assert_eq!(
        slot,
        vec![
            shown("A", "a"),
            shown("C", "c"),
            shown("B", "edited"),
            shown("D", "d"),
            shown("E", "e"),
        ]
    );
}

#[test]
fn reload_into_an_empty_slot_keeps_fetch_order() {
    let mut slot = vec![];
    merge(&mut slot, &[raw("A", "a"), raw("B", "b")], NewestTop, true);
    assert_eq!(slot, vec![shown("A", "a"), shown("B", "b")]);

    let mut slot = vec![];
    merge(&mut slot, &[raw("A", "a"), raw("B", "b")], OldestTop, true);
    assert_eq!(slot, vec![shown("B", "b"), shown("A", "a")]);
}

#[test]
fn reload_removes_duplicates_that_the_slot_held() {
    let mut slot = vec![shown("A", "a"), shown("B", "b"), shown("A", "late")];
    merge(&mut slot, &[raw("C", "c")], NewestTop, true);
    assert_eq!(slot, vec![shown("C", "c"), shown("A", "a"), shown("B", "b")]);
}

#[test]
fn directions_mirror_each_other() {
    let steps: Vec<(Vec<Status>, bool)> = vec![
        (vec![raw("5", "e"), raw("4", "d"), raw("5", "dup")], true),
        (vec![raw("4", "d"), raw("3", "c")], false),
        (vec![raw("7", "g"), raw("6", "f"), raw("4", "edited")], true),
        (vec![], false),
        (vec![raw("2", "b"), raw("7", "g"), raw("1", "a")], false),
    ];
    let mut newest_top = vec![];
    let mut oldest_top = vec![];
    for (batch, is_reload) in steps.iter() {
        merge(&mut newest_top, batch, NewestTop, *is_reload);
        merge(&mut oldest_top, batch, OldestTop, *is_reload);
        assert_eq!(oldest_top, reversed(newest_top.clone()));
    }
    assert_eq!(
        newest_top,
        vec![
            shown("7", "g"),
            shown("6", "f"),
            shown("4", "edited"),
            shown("5", "e"),
            shown("3", "c"),
            shown("2", "b"),
            shown("1", "a"),
        ]
    );
}

#[test]
fn storage_merges_the_public_timeline_newest_first() {
    let mut storage = Storage::new();
    assert_eq!(storage.public_timeline(), &vec![]);
    storage.merge_publictimeline(&[raw("B", "b"), raw("A", "a")], true);
    storage.merge_publictimeline(&[raw("A", "a"), raw("0", "z")], false);
    storage.merge_publictimeline(&[raw("C", "c"), raw("B", "b")], true);
    assert_eq!(
        storage.public_timeline(),
        &vec![shown("C", "c"), shown("B", "b"), shown("A", "a"), shown("0", "z")]
    );
    storage.clear_public_timeline();
    assert_eq!(storage.public_timeline(), &vec![]);
    storage.merge_publictimeline(&[raw("A", "a"), raw("A", "late")], false);
    assert_eq!(storage.public_timeline(), &vec![shown("A", "a")]);
}

#[test]
fn cache_gives_readers_the_storage_and_keeps_what_writers_leave() {
    let mut cache = SharedCache::new(Storage::new());
    assert_eq!(cache.with(|storage| storage.public_timeline().len()), 0);

    let merged = cache.with_mutation(|storage| {
        storage.merge_publictimeline(&[raw("A", "a"), raw("B", "b")], true);
        storage.public_timeline().len()
    });
    assert_eq!(merged, 2);
    assert_eq!(
        cache.with(|storage| storage.public_timeline().clone()),
        vec![shown("A", "a"), shown("B", "b")]
    );

    cache.with_mutation(|storage| storage.clear_public_timeline());
    assert_eq!(cache.with(|storage| storage.public_timeline().len()), 0);
}
