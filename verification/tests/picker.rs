use deck_commands::picker::{open_file_dialog, pick_outcome, presentation_filter, FileFilter};

#[test]
fn the_filter_is_for_presentation_files() {
    assert_eq!(
        presentation_filter(),
        FileFilter {
            name: "PowerPoint Files".to_string(),
            extensions: vec!["ppt".to_string(), "pptx".to_string()],
        }
    );
}

#[test]
fn a_chosen_path_is_passed_on() {
    assert_eq!(
        pick_outcome(Ok(Some("/home/ada/deck.pptx".to_string()))),
        Ok(Some("/home/ada/deck.pptx".to_string()))
    );
}

#[test]
fn a_dismissal_is_a_success_without_a_path() {
    assert_eq!(pick_outcome(Ok(None)), Ok(None));
}

#[test]
fn a_broken_channel_is_an_error_with_the_reason() {
    assert_eq!(
        pick_outcome(Err("receiving on a closed channel".to_string())),
        Err("Failed to receive file path: receiving on a closed channel".to_string())
    );
}

#[test]
fn a_callback_that_fires_at_once_delivers_the_choice() {
    let outcome = open_file_dialog(|_filter, reply| {
        let callback = move |choice: Option<String>| reply.deliver(choice);
        callback(Some("C:\\decks\\talk.ppt".to_string()));
    });
    assert_eq!(outcome, Ok(Some("C:\\decks\\talk.ppt".to_string())));
}

#[test]
fn a_callback_that_fires_at_once_delivers_the_dismissal() {
    let outcome = open_file_dialog(|_filter, reply| reply.deliver(None));
    assert_eq!(outcome, Ok(None));
}

#[test]
fn a_reply_dropped_undelivered_is_a_failure() {
    let outcome = open_file_dialog(|_filter, reply| drop(reply));
    assert_eq!(
        outcome,
        Err("Failed to receive file path: receiving on a closed channel".to_string())
    );
}

#[test]
fn the_dialog_is_given_the_presentation_filter() {
    let outcome = open_file_dialog(|filter, reply| {
        let shown = format!("{}: {}", filter.name, filter.extensions.join(", "));
        reply.deliver(Some(shown));
    });
    assert_eq!(outcome, Ok(Some("PowerPoint Files: ppt, pptx".to_string())));
}

#[test]
fn each_run_has_a_channel_of_its_own() {
    let first = open_file_dialog(|_filter, reply| reply.deliver(Some("first".to_string())));
    let second = open_file_dialog(|_filter, reply| reply.deliver(None));
    let third = open_file_dialog(|_filter, reply| reply.deliver(Some("third".to_string())));
    assert_eq!(first, Ok(Some("first".to_string())));
    assert_eq!(second, Ok(None));
    assert_eq!(third, Ok(Some("third".to_string())));
}
