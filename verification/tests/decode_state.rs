use my_model_inference_backend::{advance, init_state, STOP_TOKEN};

#[test]
fn init_state_seeds_inputs_and_mask() {
    let s = init_state(vec![1, 2, 3]).unwrap();
    assert_eq!(s.input_ids, vec![1, 2, 3]);
    assert_eq!(s.attention_mask, vec![1, 1, 1]);
    assert_eq!(s.output_ids, Vec::<i64>::new());
}

#[test]
fn init_state_empty_seed() {
    let s = init_state(vec![]).unwrap();
    assert_eq!(s.input_ids, Vec::<i64>::new());
    assert_eq!(s.attention_mask, Vec::<i8>::new());
    assert_eq!(s.output_ids, Vec::<i64>::new());
}

#[test]
fn advance_on_sentinel_stops_and_appends_nothing() {
    // Seed [1, 2, 3]; the model answers with the sentinel: generation
    // stops before that token reaches the output.
    let mut s = init_state(vec![1, 2, 3]).unwrap();
    let cache = s.cache.clone();
    let stop = advance(&mut s, STOP_TOKEN, cache);
    assert!(stop);
    assert_eq!(s.output_ids, Vec::<i64>::new());
    assert_eq!(s.input_ids, vec![1, 2, 3]);
    assert_eq!(s.attention_mask, vec![1, 1, 1]);
}

#[test]
fn advance_adopts_the_returned_cache_wholesale() {
    let mut s = init_state(vec![7]).unwrap();
    let returned = s.cache.clone();
    advance(&mut s, 99, returned.clone());
    assert_eq!(s.cache, returned);
}

#[test]
fn advance_appends_token_and_narrows_input() {
    // Seed [7]; the model answers 99 on three consecutive steps: the
    // output collects all three, and from the second step on only the
    // newly generated token is fed.
    let mut s = init_state(vec![7]).unwrap();
    for step in 1..=3 {
        let cache = s.cache.clone();
        let stop = advance(&mut s, 99, cache);
        assert!(!stop);
        assert_eq!(s.input_ids, vec![99]);
        assert_eq!(s.output_ids, vec![99; step]);
        assert_eq!(s.attention_mask, vec![1; 1 + step]);
    }
}
