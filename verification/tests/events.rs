use repo_activity::Event;

#[test]
fn names_of_the_events() {
    assert_eq!(Event::Open.name(), "open");
    assert_eq!(Event::Update.name(), "update");
    assert_eq!(Event::Close.name(), "close");
    assert_eq!(Event::Merge.name(), "merge");
}

#[test]
fn as_str_is_the_name() {
    for event in [Event::Open, Event::Update, Event::Close, Event::Merge] {
        assert_eq!(event.as_str(), event.name());
    }
}

#[test]
fn suffix_is_d_after_a_final_e() {
    assert_eq!(Event::Update.past_tense_suffix(), "d");
    assert_eq!(Event::Close.past_tense_suffix(), "d");
    assert_eq!(Event::Merge.past_tense_suffix(), "d");
}

#[test]
fn suffix_is_ed_otherwise() {
    assert_eq!(Event::Open.past_tense_suffix(), "ed");
}

#[test]
fn suffix_follows_the_last_letter_of_the_name() {
    for event in [Event::Open, Event::Update, Event::Close, Event::Merge] {
        let expected = if event.name().ends_with('e') { "d" } else { "ed" };
        assert_eq!(event.past_tense_suffix(), expected);
    }
}

#[test]
fn past_tense_of_each_event() {
    let spelled: Vec<String> = [Event::Open, Event::Update, Event::Close, Event::Merge]
        .iter()
        .map(|event| format!("{}{}", event.name(), event.past_tense_suffix()))
        .collect();
    assert_eq!(spelled, vec!["opened", "updated", "closed", "merged"]);
}
