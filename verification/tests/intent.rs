use music_chat::api::client::{instructed_request, SYSTEM_PROMPT};
use music_chat::api::types::{ModelType, Role};
use music_chat::error::Error;
use music_chat::intent::{matches_label, IntentClassifier, Pending, Progress, UserIntent};
use music_chat::prompt_file::prompt::{CLASSIFICATION_PROMPT, REFINEMENT_PROMPT};

fn resume_label(input: &str, label: &str) -> Progress {
    IntentClassifier::new().resume(
        Pending::Label { input: input.to_string() },
        Ok(label.to_string()),
    )
}

#[test]
fn classify_trims_and_asks_for_the_label() {
    let progress = IntentClassifier::new().classify("  find me upbeat songs \n");
    assert_eq!(
        progress,
        Progress::Ask(Pending::Label { input: "find me upbeat songs".to_string() })
    );
}

#[test]
fn classify_keeps_inner_white_space() {
    let progress = IntentClassifier::new().classify("\t a  b \u{3000}");
    assert_eq!(progress, Progress::Ask(Pending::Label { input: "a  b".to_string() }));
}

#[test]
fn classify_of_blank_input_asks_for_the_label_of_nothing() {
    let progress = IntentClassifier::new().classify("   ");
    assert_eq!(progress, Progress::Ask(Pending::Label { input: String::new() }));
}

#[test]
fn label_request_is_the_instruction_then_the_input() {
    let request = Pending::Label { input: "play jazz".to_string() }.request();
    assert_eq!(request.model, ModelType::MistralSmall);
    assert_eq!(request.messages.len(), 2);
    assert_eq!(request.messages[0].role, Role::System);
    assert_eq!(request.messages[0].content, CLASSIFICATION_PROMPT);
    assert_eq!(request.messages[1].role, Role::User);
    assert_eq!(request.messages[1].content, "play jazz");
    assert!(request.is_well_formed());
}

#[test]
fn refinement_request_is_the_instruction_then_the_input() {
    let request = Pending::Refinement { input: "play jazz".to_string() }.request();
    assert_eq!(request.model, ModelType::MistralSmall);
    assert_eq!(request.messages.len(), 2);
    assert_eq!(request.messages[0].role, Role::System);
    assert_eq!(request.messages[0].content, REFINEMENT_PROMPT);
    assert_eq!(request.messages[1].role, Role::User);
    assert_eq!(request.messages[1].content, "play jazz");
    assert!(request.is_well_formed());
}

#[test]
fn request_for_the_label_of_a_line_carries_the_trimmed_line() {
    match IntentClassifier::new().classify("  find me upbeat songs \n") {
        Progress::Ask(pending) => {
            assert_eq!(
                pending.request(),
                instructed_request(CLASSIFICATION_PROMPT, "find me upbeat songs")
            );
        }
        other => panic!("the classification did not ask: {:?}", other),
    }
}

#[test]
fn instructions_are_distinct_and_hold_no_placeholder() {
    assert_ne!(CLASSIFICATION_PROMPT, REFINEMENT_PROMPT);
    assert_ne!(CLASSIFICATION_PROMPT, SYSTEM_PROMPT);
    assert_ne!(REFINEMENT_PROMPT, SYSTEM_PROMPT);
    assert!(CLASSIFICATION_PROMPT.starts_with("You are a music intent classifier."));
    assert!(CLASSIFICATION_PROMPT
        .ends_with("Respond with ONLY \"MUSIC\" or \"GENERAL\" - nothing else."));
    assert!(REFINEMENT_PROMPT.starts_with("You are a music recommendation expert."));
    assert!(REFINEMENT_PROMPT.ends_with("\"something sad and slow\" → \"sad slow ballad\""));
    assert!(!CLASSIFICATION_PROMPT.contains("{}"));
    assert!(!REFINEMENT_PROMPT.contains("{}"));
}

#[test]
fn music_label_in_any_case_with_white_space_is_music() {
    let classifier = IntentClassifier::new();
    assert!(classifier.is_music("MUSIC"));
    assert!(classifier.is_music("music"));
    assert!(classifier.is_music("Music"));
    assert!(classifier.is_music("  MUSIC\n"));
    assert!(classifier.is_music("\tmUsIc  "));
}

#[test]
fn any_other_label_is_conversation() {
    let classifier = IntentClassifier::new();
    assert!(!classifier.is_music("MUSICAL"));
    assert!(!classifier.is_music(""));
    assert!(!classifier.is_music("   "));
    assert!(!classifier.is_music("music please"));
    assert!(!classifier.is_music("GENERAL"));
    assert!(!classifier.is_music("MUSIC."));
    assert!(!classifier.is_music("\"MUSIC\""));
    assert!(!classifier.is_music("MU SIC"));
}

#[test]
fn matches_label_is_strict_equality() {
    assert!(matches_label("MUSIC"));
    assert!(!matches_label("music"));
    assert!(!matches_label("MUSIC "));
    assert!(!matches_label("MUSICAL"));
    assert!(!matches_label(""));
}

#[test]
fn refine_trims_and_lowers() {
    let classifier = IntentClassifier::new();
    assert_eq!(classifier.refine("  Upbeat Energetic \n"), "upbeat energetic");
    assert_eq!(classifier.refine("Taylor Swift - 22, Shake It Off"), "taylor swift - 22, shake it off");
    assert_eq!(classifier.refine(""), "");
}

#[test]
fn music_label_asks_for_refinement_of_the_same_input() {
    assert_eq!(
        resume_label("find me upbeat songs", "MUSIC"),
        Progress::Ask(Pending::Refinement { input: "find me upbeat songs".to_string() })
    );
    assert_eq!(
        resume_label("find me upbeat songs", " music \n"),
        Progress::Ask(Pending::Refinement { input: "find me upbeat songs".to_string() })
    );
}

#[test]
fn other_labels_end_as_general_query_with_the_input() {
    for label in ["GENERAL", "MUSICAL", "", "music please", "MUSIC.", "general"] {
        assert_eq!(
            resume_label("what's your favorite genre?", label),
            Progress::Done(UserIntent::GeneralQuery("what's your favorite genre?".to_string()))
        );
    }
}

#[test]
fn refinement_reply_ends_as_music_request_with_the_phrase() {
    let progress = IntentClassifier::new().resume(
        Pending::Refinement { input: "find me upbeat songs".to_string() },
        Ok(" Upbeat Energetic\n".to_string()),
    );
    assert_eq!(
        progress,
        Progress::Done(UserIntent::MusicRequest("upbeat energetic".to_string()))
    );
}

#[test]
fn music_request_does_not_carry_the_input() {
    let a = IntentClassifier::new().resume(
        Pending::Refinement { input: "first input".to_string() },
        Ok("chill jazz".to_string()),
    );
    let b = IntentClassifier::new().resume(
        Pending::Refinement { input: "second input".to_string() },
        Ok("chill jazz".to_string()),
    );
    assert_eq!(a, b);
    assert_eq!(a, Progress::Done(UserIntent::MusicRequest("chill jazz".to_string())));
}

#[test]
fn music_request_equals_the_input_when_the_reply_echoes_it() {
    let progress = IntentClassifier::new().resume(
        Pending::Refinement { input: "chill jazz".to_string() },
        Ok("chill jazz".to_string()),
    );
    assert_eq!(progress, Progress::Done(UserIntent::MusicRequest("chill jazz".to_string())));
}

#[test]
fn failed_label_call_fails_the_classification_unchanged() {
    let failure = Error::TransportFailure("connection refused".to_string());
    let progress = IntentClassifier::new()
        .resume(Pending::Label { input: "hello".to_string() }, Err(failure.clone()));
    assert_eq!(progress, Progress::Failed(failure));
}

#[test]
fn failed_refinement_call_fails_the_classification_unchanged() {
    let progress = IntentClassifier::new()
        .resume(Pending::Refinement { input: "hello".to_string() }, Err(Error::EmptyResult));
    assert_eq!(progress, Progress::Failed(Error::EmptyResult));
}

#[test]
fn classification_takes_one_call_for_conversation_and_two_for_music() {
    let classifier = IntentClassifier::new();
    let mut calls = 0;
    let mut progress = classifier.classify("tell me about jazz music");
    let replies = ["GENERAL"];
    while let Progress::Ask(pending) = progress {
        let reply = replies[calls].to_string();
        calls += 1;
        progress = classifier.resume(pending, Ok(reply));
    }
    assert_eq!(calls, 1);
    assert_eq!(
        progress,
        Progress::Done(UserIntent::GeneralQuery("tell me about jazz music".to_string()))
    );

    let mut calls = 0;
    let mut progress = classifier.classify("play some jazz music");
    let replies = ["MUSIC", "Chill Jazz"];
    while let Progress::Ask(pending) = progress {
        let reply = replies[calls].to_string();
        calls += 1;
        progress = classifier.resume(pending, Ok(reply));
    }
    assert_eq!(calls, 2);
    assert_eq!(progress, Progress::Done(UserIntent::MusicRequest("chill jazz".to_string())));
}
