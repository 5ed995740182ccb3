use queuemetrics_serve::server::{
    alpn_protocols, find_max_index, handle, route, score_key, InferenceResponse, Outcome, Route,
    NUM_CLASSES,
};

fn keys(scores: &[f32]) -> Vec<u64> {
    scores.iter().map(|s| score_key(s.to_bits())).collect()
}

#[test]
fn only_post_inference_is_routed() {
    assert_eq!(route("POST", "/inference"), Route::Inference);
    assert_eq!(route("GET", "/health"), Route::NotFound);
    assert_eq!(route("GET", "/inference"), Route::NotFound);
    assert_eq!(route("POST", "/inference/"), Route::NotFound);
    assert_eq!(route("post", "/inference"), Route::NotFound);
    assert_eq!(route("", ""), Route::NotFound);
}

#[test]
fn tie_selects_lower_index() {
    let k = keys(&[0.5, 0.5, 0.1]);
    assert_eq!(find_max_index(&k).0, 0);
    let k = keys(&[0.1, 0.7, 0.7]);
    assert_eq!(find_max_index(&k).0, 1);
}

#[test]
fn max_index_with_negative_scores() {
    let k = keys(&[-1.0, -0.5, -2.0]);
    let (i, m) = find_max_index(&k);
    assert_eq!(i, 1);
    assert_eq!(m, score_key((-0.5f32).to_bits()));
}

#[test]
fn max_index_single_score() {
    assert_eq!(find_max_index(&vec![7]), (0, 7));
}

#[test]
fn score_key_values() {
    assert_eq!(score_key(0.0f32.to_bits()), 0x8000_0000);
    assert_eq!(score_key((-0.0f32).to_bits()), 0x7FFF_FFFF);
    assert_eq!(score_key(1), 0x8000_0001);
    assert!(score_key(0.25f32.to_bits()) < score_key(0.75f32.to_bits()));
    assert!(score_key((-0.75f32).to_bits()) < score_key((-0.25f32).to_bits()));
    assert!(score_key((-3.0f32).to_bits()) < score_key(1.0e-6f32.to_bits()));
}

#[test]
fn end_to_end_scenario() {
    let k = keys(&[0.1, 0.8, 0.1]);
    let o = handle("POST", "/inference", Some(1), Some(&k));
    assert_eq!(o, Outcome::Predicted(InferenceResponse { expected: 1, predicted: 1 }));
    assert_eq!(o.status(), 200);
    assert_eq!(o.body(), Some(InferenceResponse { expected: 1, predicted: 1 }));
}

#[test]
fn malformed_body_is_bad_request() {
    let k = keys(&[0.1, 0.8, 0.1]);
    let o = handle("POST", "/inference", None, Some(&k));
    assert_eq!(o, Outcome::BadRequest);
    assert_eq!(o.status(), 400);
    assert_eq!(o.body(), None);
    assert_eq!(handle("POST", "/inference", None, None).status(), 400);
}

#[test]
fn unknown_route_is_not_found() {
    let k = keys(&[0.1, 0.8, 0.1]);
    for (m, p) in [("GET", "/health"), ("GET", "/inference"), ("PUT", "/inference"), ("POST", "/")] {
        let o = handle(m, p, Some(1), Some(&k));
        assert_eq!(o, Outcome::NotFound);
        assert_eq!(o.status(), 404);
        assert_eq!(o.body(), None);
    }
}

#[test]
fn evaluator_failure_is_internal_error() {
    let o = handle("POST", "/inference", Some(2), None);
    assert_eq!(o, Outcome::InternalError);
    assert_eq!(o.status(), 500);
    let short = keys(&[0.3, 0.7]);
    assert_eq!(handle("POST", "/inference", Some(2), Some(&short)), Outcome::InternalError);
    let long = keys(&[0.1, 0.2, 0.3, 0.4]);
    assert_eq!(handle("POST", "/inference", Some(2), Some(&long)).status(), 500);
}

#[test]
fn each_request_echoes_its_own_label() {
    let k = keys(&[0.2, 0.1, 0.9]);
    for label in 0..200usize {
        match handle("POST", "/inference", Some(label), Some(&k)) {
            Outcome::Predicted(r) => {
                assert_eq!(r.expected, label);
                assert_eq!(r.predicted, 2);
                assert!(r.predicted < NUM_CLASSES);
            }
            other => panic!("unexpected outcome {:?}", other),
        }
    }
}

#[test]
fn alpn_preference_order() {
    let a = alpn_protocols();
    assert_eq!(a, vec![b"h2".to_vec(), b"http/1.1".to_vec(), b"http/1.0".to_vec()]);
}
