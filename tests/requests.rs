use breakfast_embed::{
    Action, BatchStep, Event, Insertion, Neighbor, ProviderFailure, RequestTask, SentenceIndex,
    ServiceError, StoredVector, DIM,
};

fn unit(i: usize) -> Vec<u32> {
    let mut v = vec![0u32; DIM];
    v[i] = 1.0f32.to_bits();
    v
}

fn distance(a: &[u32], b: &[u32]) -> u32 {
    a.iter()
        .zip(b.iter())
        .map(|(x, y)| (f32::from_bits(*x) - f32::from_bits(*y)).powi(2))
        .sum::<f32>()
        .sqrt()
        .to_bits()
}

/// Drives a request to its end with an empty cache and a provider that
/// gives sentence `s{i}` the i-th unit vector, failing on `broken`.
fn drive(ix: &mut SentenceIndex, request: &mut RequestTask, mut step: BatchStep) -> BatchStep {
    loop {
        let action = match step {
            BatchStep::Next(a) => a,
            done => return done,
        };
        let event = match action {
            Action::LookUpVector(_) => Event::Looked(None),
            Action::Embed(s) => {
                if s == "broken" {
                    Event::Embedded(Err(ProviderFailure::Model))
                } else {
                    let i: usize = s[1..].parse().unwrap();
                    Event::Embedded(Ok(unit(i)))
                }
            }
            Action::StoreVector { .. } => Event::Stored(Ok(())),
            Action::Search { lanes, .. } => Event::Found(
                (0..ix.size())
                    .map(|i| Neighbor {
                        payload: ix.payload(i).clone(),
                        distance: distance(ix.point(i).lanes(), &lanes),
                    })
                    .collect(),
            ),
            Action::LookUpLabels(ps) => Event::Labels(ps.iter().map(|p| Some(format!("L{}", p))).collect()),
            other => panic!("unexpected {:?}", other),
        };
        assert!(request.accepts(&event));
        step = request.step(ix, event);
    }
}

#[test]
fn request_answers_every_sentence_in_order() {
    let mut ix = SentenceIndex::new();
    let sentences = vec!["s0".to_string(), "s1".to_string(), "s2".to_string()];
    let (mut request, step) = RequestTask::new(sentences, None, true).unwrap();
    assert!(matches!(&step, BatchStep::Next(Action::LookUpVector(s)) if s == "s0"));
    match drive(&mut ix, &mut request, step) {
        BatchStep::Finished(answers) => {
            assert_eq!(answers.len(), 3);
            assert_eq!(answers[0].insertion, Insertion::Success);
            assert!(answers[0].search_result.is_empty());
            assert_eq!(answers[1].search_result, vec!["s0".to_string()]);
            assert_eq!(answers[2].search_result, vec!["s0".to_string(), "s1".to_string()]);
        }
        other => panic!("unexpected {:?}", other),
    }
    assert_eq!(ix.size(), 3);
    assert!(!request.accepts(&Event::Looked(None)));
}

#[test]
fn request_failure_aborts_the_batch() {
    let mut ix = SentenceIndex::new();
    let sentences = vec!["s0".to_string(), "broken".to_string(), "s2".to_string()];
    let (mut request, step) = RequestTask::new(sentences, None, true).unwrap();
    match drive(&mut ix, &mut request, step) {
        BatchStep::Failed(e) => assert_eq!(e, ServiceError::EmbedProvider(ProviderFailure::Model)),
        other => panic!("unexpected {:?}", other),
    }
    assert_eq!(ix.size(), 1);
}

#[test]
fn empty_request_finishes_at_once() {
    let (request, step) = RequestTask::new(vec![], None, true).unwrap();
    assert!(matches!(step, BatchStep::Finished(ref a) if a.is_empty()));
    assert!(!request.accepts(&Event::Looked(None)));
}

#[test]
fn labelled_request_needs_one_label_per_sentence() {
    let r = RequestTask::new(vec!["a".to_string()], Some(vec![]), true);
    assert_eq!(r.err().map(|e| e), Some(ServiceError::BadInput));
}

#[test]
fn labelled_request_carries_labels() {
    let mut ix = SentenceIndex::new();
    let sentences = vec!["s0".to_string(), "s1".to_string()];
    let labels = vec!["zero".to_string(), "one".to_string()];
    let (mut request, step) = RequestTask::new(sentences, Some(labels), true).unwrap();
    match drive(&mut ix, &mut request, step) {
        BatchStep::Finished(answers) => {
            assert_eq!(answers.len(), 2);
            assert_eq!(answers[1].labels, vec!["Ls0".to_string()]);
        }
        other => panic!("unexpected {:?}", other),
    }
}

#[test]
fn cached_sentence_in_a_request() {
    let mut ix = SentenceIndex::new();
    let (mut request, _) = RequestTask::new(vec!["s4".to_string()], None, true).unwrap();
    let step = request.step(&mut ix, Event::Looked(Some(StoredVector::Flat(unit(4)))));
    match step {
        BatchStep::Finished(answers) => assert_eq!(answers[0].insertion, Insertion::AlreadyExists),
        other => panic!("unexpected {:?}", other),
    }
}
