use breakfast_embed::{
    decide_insertion, Action, Event, Insertion, MyResponse, Neighbor, ProviderFailure,
    SentenceIndex, SentenceTask, ServiceError, Source, Stage, StoredVector, DIM, INSERT_THRESHOLD,
    K_LABELLED, K_UNLABELLED,
};

fn lanes(prefix: &[f32]) -> Vec<u32> {
    let mut v = vec![0u32; DIM];
    for (i, x) in prefix.iter().enumerate() {
        v[i] = x.to_bits();
    }
    v
}

fn distance(a: &[u32], b: &[u32]) -> u32 {
    a.iter()
        .zip(b.iter())
        .map(|(x, y)| (f32::from_bits(*x) - f32::from_bits(*y)).powi(2))
        .sum::<f32>()
        .sqrt()
        .to_bits()
}

/// Brute-force hits over the whole index, in insertion order.
fn hits(ix: &SentenceIndex, q: &[u32]) -> Vec<Neighbor> {
    (0..ix.size())
        .map(|i| Neighbor { payload: ix.payload(i).clone(), distance: distance(ix.point(i).lanes(), q) })
        .collect()
}

fn respond(a: Action) -> MyResponse {
    match a {
        Action::Respond(r) => r,
        other => panic!("expected an answer, got {:?}", other),
    }
}

/// Runs one sentence to the end against a provider vector and a cache.
fn run(
    ix: &mut SentenceIndex,
    cache: &mut Vec<(String, Vec<u32>)>,
    sentence: &str,
    provided: &[u32],
    should_insert: bool,
    embeds: &mut usize,
) -> MyResponse {
    let (mut task, mut action) = SentenceTask::new(sentence.to_string(), None, should_insert);
    loop {
        let event = match action {
            Action::LookUpVector(s) => {
                let found = cache.iter().find(|(k, _)| *k == s).map(|(_, v)| StoredVector::Flat(v.clone()));
                Event::Looked(found)
            }
            Action::Embed(_) => {
                *embeds += 1;
                Event::Embedded(Ok(provided.to_vec()))
            }
            Action::StoreVector { sentence, lanes, .. } => {
                cache.retain(|(k, _)| *k != sentence);
                cache.push((sentence, lanes));
                Event::Stored(Ok(()))
            }
            Action::Search { lanes, .. } => Event::Found(hits(ix, &lanes)),
            Action::Respond(r) => return r,
            other => panic!("unexpected {:?}", other),
        };
        assert!(task.accepts(&event));
        action = task.step(ix, event);
    }
}

#[test]
fn new_task_looks_up_the_cache_first() {
    let (task, action) = SentenceTask::new("s".to_string(), None, true);
    assert_eq!(task.stage(), Stage::LookUp);
    assert!(matches!(action, Action::LookUpVector(s) if s == "s"));
    assert!(task.accepts(&Event::Looked(None)));
    assert!(!task.accepts(&Event::Found(vec![])));
}

#[test]
fn near_duplicate_is_cached_not_indexed() {
    let mut ix = SentenceIndex::new();
    let mut cache = Vec::new();
    let mut embeds = 0;
    let hello = lanes(&[1.0, 0.0, 0.0, 0.0]);
    let r = run(&mut ix, &mut cache, "hello", &hello, true, &mut embeds);
    assert_eq!(r.insertion, Insertion::Success);
    assert!(r.search_result.is_empty());
    assert_eq!(ix.size(), 1);

    let hi = lanes(&[1.0, 0.0, 0.0, 0.0001]);
    let r = run(&mut ix, &mut cache, "hi", &hi, true, &mut embeds);
    assert_eq!(r.insertion, Insertion::NoInsert);
    assert_eq!(r.insertion.text(), "no insert");
    assert_eq!(r.search_result, vec!["hello".to_string()]);
    assert_eq!(ix.size(), 1);
    assert!(cache.iter().any(|(k, v)| k == "hi" && *v == hi));
}

#[test]
fn cache_hit_skips_embedding() {
    let mut ix = SentenceIndex::new();
    let mut cache = Vec::new();
    let mut embeds = 0;
    let hello = lanes(&[1.0, 0.0, 0.0, 0.0]);
    run(&mut ix, &mut cache, "hello", &hello, true, &mut embeds);
    assert_eq!(embeds, 1);
    let r = run(&mut ix, &mut cache, "hello", &hello, true, &mut embeds);
    assert_eq!(r.insertion, Insertion::AlreadyExists);
    assert_eq!(r.insertion.text(), "already exists");
    assert_eq!(embeds, 1);
    assert_eq!(ix.size(), 1);
}

#[test]
fn cache_idempotence_on_a_populated_index() {
    let mut ix = SentenceIndex::new();
    let mut cache = Vec::new();
    let mut embeds = 0;
    run(&mut ix, &mut cache, "seed", &lanes(&[0.0, 5.0]), true, &mut embeds);
    let v = lanes(&[3.0, 0.0]);
    let first = run(&mut ix, &mut cache, "three", &v, true, &mut embeds);
    let second = run(&mut ix, &mut cache, "three", &v, true, &mut embeds);
    assert_eq!(first.insertion, Insertion::Success);
    assert_eq!(second.insertion, Insertion::AlreadyExists);
    assert_eq!(ix.size(), 2);
    assert_eq!(second.search_result[0], "three");
}

#[test]
fn no_write_back_without_should_insert() {
    let mut ix = SentenceIndex::new();
    let mut cache = Vec::new();
    let mut embeds = 0;
    run(&mut ix, &mut cache, "seed", &lanes(&[1.0]), true, &mut embeds);
    let r = run(&mut ix, &mut cache, "other", &lanes(&[0.0, 1.0]), false, &mut embeds);
    assert_eq!(r.insertion, Insertion::NoInsert);
    assert_eq!(ix.size(), 1);
    assert_eq!(cache.len(), 1);
}

#[test]
fn reflexive_proximity_after_insert() {
    let mut ix = SentenceIndex::new();
    let mut cache = Vec::new();
    let mut embeds = 0;
    run(&mut ix, &mut cache, "a", &lanes(&[1.0]), true, &mut embeds);
    let v = lanes(&[0.0, 2.0]);
    run(&mut ix, &mut cache, "b", &v, true, &mut embeds);
    let r = run(&mut ix, &mut cache, "probe", &v, false, &mut embeds);
    assert_eq!(r.search_result[0], "b");
    assert_eq!(f32::from_bits(r.search_distance[0]), 0.0);
}

#[test]
fn labelled_fan_out_collects_labels() {
    let mut ix = SentenceIndex::new();
    let cat = lanes(&[1.0, 0.0]);
    let dog = lanes(&[0.0, 1.0]);
    ix.insert(breakfast_embed::Point::from_vec(cat).unwrap(), "cat".to_string());
    ix.insert(breakfast_embed::Point::from_vec(dog).unwrap(), "dog".to_string());
    let puppy = lanes(&[0.1, 0.9]);

    let (mut task, a) = SentenceTask::new("puppy".to_string(), Some("C".to_string()), true);
    assert!(matches!(a, Action::LookUpVector(_)));
    let a = task.step(&mut ix, Event::Looked(None));
    assert!(matches!(a, Action::Embed(_)));
    let a = task.step(&mut ix, Event::Embedded(Ok(puppy.clone())));
    match a {
        Action::StoreVector { sentence, lanes, label } => {
            assert_eq!(sentence, "puppy");
            assert_eq!(lanes, puppy);
            assert_eq!(label, Some("C".to_string()));
        }
        other => panic!("unexpected {:?}", other),
    }
    let a = task.step(&mut ix, Event::Stored(Ok(())));
    let raw = match a {
        Action::Search { lanes, k } => {
            assert_eq!(k, K_LABELLED);
            hits(&ix, &lanes)
        }
        other => panic!("unexpected {:?}", other),
    };
    let a = task.step(&mut ix, Event::Found(raw));
    let asked = match a {
        Action::LookUpLabels(ps) => ps,
        other => panic!("unexpected {:?}", other),
    };
    assert_eq!(asked, vec!["dog".to_string(), "cat".to_string()]);
    assert_eq!(task.stage(), Stage::Labelling);
    let r = respond(task.step(&mut ix, Event::Labels(vec![Some("B".to_string()), Some("A".to_string())])));
    assert_eq!(r.labels, vec!["B".to_string(), "A".to_string()]);
    assert_eq!(r.search_result, vec!["dog".to_string(), "cat".to_string()]);
    assert_eq!(r.insertion, Insertion::Success);
    assert_eq!(ix.size(), 3);
    assert_eq!(task.stage(), Stage::Done);
}

#[test]
fn missing_labels_are_skipped() {
    let mut ix = SentenceIndex::new();
    ix.insert(breakfast_embed::Point::from_vec(lanes(&[1.0])).unwrap(), "x".to_string());
    ix.insert(breakfast_embed::Point::from_vec(lanes(&[2.0])).unwrap(), "y".to_string());
    let v = lanes(&[1.0]);
    let (mut task, _) = SentenceTask::new("x".to_string(), Some("L".to_string()), false);
    let a = task.step(&mut ix, Event::Looked(Some(StoredVector::Nested(vec![v.clone()]))));
    assert!(matches!(a, Action::Search { k, .. } if k == K_LABELLED));
    let raw = hits(&ix, &v);
    task.step(&mut ix, Event::Found(raw));
    let r = respond(task.step(&mut ix, Event::Labels(vec![None, Some("Y".to_string())])));
    assert_eq!(r.labels, vec!["Y".to_string()]);
    assert_eq!(r.insertion, Insertion::AlreadyExists);
}

#[test]
fn unlabelled_search_asks_for_five() {
    let mut ix = SentenceIndex::new();
    ix.insert(breakfast_embed::Point::from_vec(lanes(&[1.0])).unwrap(), "x".to_string());
    let (mut task, _) = SentenceTask::new("q".to_string(), None, false);
    let a = task.step(&mut ix, Event::Looked(Some(StoredVector::Flat(lanes(&[3.0])))));
    assert!(matches!(a, Action::Search { k, .. } if k == K_UNLABELLED));
}

#[test]
fn corrupt_cache_entry_is_a_miss() {
    let mut ix = SentenceIndex::new();
    let (mut task, _) = SentenceTask::new("q".to_string(), None, true);
    let a = task.step(&mut ix, Event::Looked(Some(StoredVector::Flat(vec![1, 2, 3]))));
    assert!(matches!(a, Action::Embed(s) if s == "q"));
    assert_eq!(task.stage(), Stage::Embedding);
}

#[test]
fn bootstrap_from_cache_reports_already_exists() {
    let mut ix = SentenceIndex::new();
    let (mut task, _) = SentenceTask::new("q".to_string(), None, true);
    let r = respond(task.step(&mut ix, Event::Looked(Some(StoredVector::Flat(lanes(&[3.0]))))));
    assert_eq!(r.insertion, Insertion::AlreadyExists);
    assert!(r.search_result.is_empty());
    assert_eq!(ix.size(), 1);
}

#[test]
fn provider_failure_fails_the_sentence() {
    let mut ix = SentenceIndex::new();
    let (mut task, _) = SentenceTask::new("q".to_string(), None, true);
    task.step(&mut ix, Event::Looked(None));
    let a = task.step(&mut ix, Event::Embedded(Err(ProviderFailure::Transport)));
    assert!(matches!(a, Action::Fail(ServiceError::EmbedProvider(ProviderFailure::Transport))));
    assert_eq!(task.stage(), Stage::Done);
    assert!(!task.accepts(&Event::Looked(None)));
}

#[test]
fn provider_wrong_dimension_is_fatal() {
    let mut ix = SentenceIndex::new();
    let (mut task, _) = SentenceTask::new("q".to_string(), None, true);
    task.step(&mut ix, Event::Looked(None));
    let a = task.step(&mut ix, Event::Embedded(Ok(vec![0u32; 4])));
    assert!(matches!(a, Action::Fail(ServiceError::BadDimension { expected, found: 4 }) if expected == DIM));
    assert_eq!(ix.size(), 0);
}

#[test]
fn store_failure_fails_the_sentence() {
    let mut ix = SentenceIndex::new();
    let (mut task, _) = SentenceTask::new("q".to_string(), None, true);
    task.step(&mut ix, Event::Looked(None));
    task.step(&mut ix, Event::Embedded(Ok(lanes(&[1.0]))));
    let a = task.step(&mut ix, Event::Stored(Err(ServiceError::StoreUnavailable)));
    assert!(matches!(a, Action::Fail(ServiceError::StoreUnavailable)));
    assert_eq!(ix.size(), 0);
}

#[test]
fn wipe_leaves_nothing_behind() {
    let mut ix = SentenceIndex::new();
    let mut cache = Vec::new();
    let mut embeds = 0;
    let v = lanes(&[1.0]);
    run(&mut ix, &mut cache, "a", &v, true, &mut embeds);
    run(&mut ix, &mut cache, "b", &lanes(&[0.0, 1.0]), true, &mut embeds);
    assert_eq!(ix.size(), 2);
    ix.clear();
    cache.clear();
    assert_eq!(ix.size(), 0);
    let (mut task, _) = SentenceTask::new("a".to_string(), None, true);
    let a = task.step(&mut ix, Event::Looked(None));
    assert!(matches!(a, Action::Embed(_)));
    let r = run(&mut ix, &mut cache, "a", &v, true, &mut embeds);
    assert_eq!(r.insertion, Insertion::Success);
    assert_eq!(embeds, 3);
}

#[test]
fn gate_decisions() {
    let at = INSERT_THRESHOLD;
    let above = 0.0021f32.to_bits();
    assert_eq!(decide_insertion(true, Source::Fresh, Some(at)), Insertion::NoInsert);
    assert_eq!(decide_insertion(true, Source::Fresh, Some(above)), Insertion::Success);
    assert_eq!(decide_insertion(true, Source::Fresh, None), Insertion::Success);
    assert_eq!(decide_insertion(false, Source::Fresh, Some(above)), Insertion::NoInsert);
    assert_eq!(decide_insertion(true, Source::Cache, Some(above)), Insertion::AlreadyExists);
    assert_eq!(decide_insertion(true, Source::Fresh, Some(f32::NAN.to_bits())), Insertion::Success);
    assert_eq!(f32::from_bits(INSERT_THRESHOLD), 0.002f32);
    assert_eq!(Insertion::Success.text(), "success");
}
