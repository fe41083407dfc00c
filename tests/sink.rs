use summarize::sink::{fragment, Feedback, Sink, TokenEvent};

#[test]
fn write_failure_on_third_of_ten_halts() {
    let mut sink = Sink::new();
    let mut calls = 0;
    let mut answers = Vec::new();
    for i in 1..=10 {
        if sink.is_halted() {
            break;
        }
        calls += 1;
        answers.push(sink.record(i != 3));
    }
    assert_eq!(calls, 3);
    assert_eq!(answers, vec![Feedback::Continue, Feedback::Continue, Feedback::Halt]);
    assert_eq!(sink.writes(), 2);
    assert!(sink.is_halted());
}

#[test]
fn every_delivered_token_continues() {
    let mut sink = Sink::new();
    for _ in 0..10 {
        assert_eq!(sink.record(true), Feedback::Continue);
    }
    assert_eq!(sink.writes(), 10);
    assert!(!sink.is_halted());
}

#[test]
fn first_token_failure_halts_with_nothing_written() {
    let mut sink = Sink::new();
    assert_eq!(sink.record(false), Feedback::Halt);
    assert_eq!(sink.writes(), 0);
    assert!(sink.is_halted());
}

#[test]
fn fragments_of_events() {
    let p = TokenEvent::PromptToken(String::from("Hel"));
    let t = TokenEvent::InferredToken(String::from("lo"));
    assert_eq!(fragment(&p), Some("Hel"));
    assert_eq!(fragment(&t), Some("lo"));
    assert_eq!(fragment(&TokenEvent::Other), None);
}
