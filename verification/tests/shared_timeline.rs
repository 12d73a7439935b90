use status_timeline::environment::storage::Storage;
use status_timeline::environment::types::TimelineDirection::NewestTop;
use status_timeline::environment::{Environment, SharedCache};
use status_timeline::providers::public::PublicTimelineProvider;
use status_timeline::providers::shared::SharedPublicTimeline;
use status_timeline::providers::TimelineProvider;
use status_timeline::status::Status;
use status_timeline::view_model::{StatusId, StatusViewModel};

fn fetched(id: &str, content: &str) -> Status {
    Status { id: id.to_string(), content: content.to_string() }
}

fn cached(id: &str, content: &str) -> StatusViewModel {
    StatusViewModel { id: StatusId(id.to_string()), content: content.to_string() }
}

fn shared_holding(statuses: &[Status]) -> SharedPublicTimeline {
    let mut storage = Storage::new();
    storage.merge_publictimeline(statuses, true);
    SharedPublicTimeline::new(PublicTimelineProvider::new(Environment {
        storage: SharedCache::new(storage),
    }))
}

#[test]
fn shared_timeline_hands_readers_the_provider() {
    let shared = shared_holding(&[fetched("3", "c"), fetched("1", "a"), fetched("2", "b")]);
    let listed = shared.with(|provider| provider.data(NewestTop));
    assert_eq!(listed, vec![cached("3", "c"), cached("1", "a"), cached("2", "b")]);
    let name = shared.with(|provider| provider.identifier().to_string());
    assert_eq!(name, "status_timeline::providers::public::PublicTimelineProvider");
    // readers leave the provider as it was
    let again = shared.with(|provider| provider.data(NewestTop));
    assert_eq!(again, listed);
}

#[test]
fn shared_timeline_keeps_what_writers_leave() {
    let shared = shared_holding(&[]);
    let more = shared.with_mutation(|provider| {
        provider.process_new_data(
            &[fetched("A", "a"), fetched("B", "b")],
            NewestTop,
            true,
        )
    });
    assert!(more);
    let more = shared.with_mutation(|provider| {
        provider.process_new_data(
            &[fetched("B", "b"), fetched("C", "c")],
            NewestTop,
            false,
        )
    });
    assert!(more);
    assert_eq!(
        shared.with(|provider| provider.data(NewestTop)),
        vec![cached("A", "a"), cached("B", "b"), cached("C", "c")]
    );
    let more =
        shared.with_mutation(|provider| provider.process_new_data(&[], NewestTop, false));
    assert!(!more);
    shared.with_mutation(|provider| provider.reset());
    assert_eq!(shared.with(|provider| provider.data(NewestTop)), vec![]);
}

#[test]
fn shared_timeline_is_free_again_after_each_call() {
    let shared = shared_holding(&[fetched("1", "a")]);
    for round in 0..50 {
        let failed = shared.with_mutation(|provider| {
            provider.complete_request(Err("no route".to_string()), NewestTop, true)
        });
        assert_eq!(failed, Err("no route".to_string()));
        let held = shared.with(|provider| provider.data(NewestTop).len());
        assert_eq!(held, 1 + round);
        let merged = shared.with_mutation(|provider| {
            provider.complete_request(
                Ok(vec![fetched(&format!("new {}", round), "text"), fetched("1", "a")]),
                NewestTop,
                false,
            )
        });
        assert_eq!(merged, Ok(true));
    }
    let listed = shared.with(|provider| provider.data(NewestTop));
    assert_eq!(listed.len(), 51);
    assert_eq!(listed[0], cached("1", "a"));
    assert_eq!(listed[50], cached("new 49", "text"));
}
