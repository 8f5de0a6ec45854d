use std::path::PathBuf;
use ttyper_story::producer::{ChatMessage, Phase, Producer, ProducerAction, ProducerEvent, Role};
use ttyper_story::prompts::{cast_list, draw_cast, image_prompt, standing_instructions, CAST_SIZE};
use ttyper_story::story::StoryPart;

fn producer() -> Producer {
    let preamble = vec![ChatMessage { role: Role::System, content: "tell a story".to_string() }];
    Producer::from_preamble(preamble, "go on".to_string())
}

fn words(action: &ProducerAction) -> Vec<String> {
    match action {
        ProducerAction::RequestImage(words) => words.clone(),
        other => panic!("expected an image request, got {:?}", other),
    }
}

#[test]
fn first_action_requests_text() {
    let p = producer();
    match p.begin() {
        ProducerAction::RequestText(messages) => {
            assert_eq!(messages.len(), 1);
            assert_eq!(messages[0].content, "tell a story");
        }
        other => panic!("unexpected {:?}", other),
    }
}

#[test]
fn text_is_split_into_words() {
    let mut p = producer();
    let action = p.step(ProducerEvent::TextReady(vec![
        "Steve  walked\tinto".to_string(),
        "the\nNether.".to_string(),
    ]));
    assert_eq!(words(&action), vec!["Steve", "walked", "into", "the", "Nether."]);
    match &p.phase {
        Phase::AwaitImage { line, section } => {
            assert_eq!(line, "Steve  walked\tinto the\nNether.");
            assert_eq!(section.len(), 5);
        }
        other => panic!("unexpected {:?}", other),
    }
}

#[test]
fn image_failures_are_retried_then_published() {
    for failures in [0usize, 1, 3] {
        let mut p = producer();
        let mut image_requests = 0;
        let mut published: Vec<StoryPart> = Vec::new();
        let mut actions = vec![p.step(ProducerEvent::TextReady(vec!["a red creeper".to_string()]))];
        for _ in 0..failures {
            actions.push(p.step(ProducerEvent::ImageFailed));
        }
        actions.push(p.step(ProducerEvent::ImageReady(PathBuf::from("data/1.png"))));
        for action in actions {
            match action {
                ProducerAction::RequestImage(words) => {
                    assert_eq!(words, vec!["a", "red", "creeper"]);
                    image_requests += 1;
                }
                ProducerAction::Publish(part) => published.push(part),
                other => panic!("unexpected {:?}", other),
            }
        }
        assert_eq!(image_requests, failures + 1);
        assert_eq!(published.len(), 1);
        assert_eq!(published[0].section, vec!["a", "red", "creeper"]);
        assert_eq!(published[0].image, PathBuf::from("data/1.png"));
        assert_eq!(p.history.len(), 3);
        assert_eq!(p.history[1].role, Role::Assistant);
        assert_eq!(p.history[1].content, "a red creeper");
        assert_eq!(p.history[2].role, Role::User);
        assert_eq!(p.history[2].content, "go on");
    }
}

#[test]
fn delivery_requests_next_text() {
    let mut p = producer();
    p.step(ProducerEvent::TextReady(vec!["one".to_string()]));
    p.step(ProducerEvent::ImageReady(PathBuf::from("x.png")));
    match p.step(ProducerEvent::Delivered) {
        ProducerAction::RequestText(messages) => assert_eq!(messages.len(), 3),
        other => panic!("unexpected {:?}", other),
    }
}

#[test]
fn second_part_waits_for_delivery() {
    let mut p = producer();
    p.step(ProducerEvent::TextReady(vec!["one".to_string()]));
    p.step(ProducerEvent::ImageReady(PathBuf::from("x.png")));
    assert!(matches!(p.phase, Phase::AwaitDelivery));
    // nothing but the delivery lets it go on
    assert!(matches!(p.step(ProducerEvent::TextReady(vec!["two".to_string()])), ProducerAction::Stop));
}

#[test]
fn text_failure_stops() {
    let mut p = producer();
    assert!(matches!(p.step(ProducerEvent::TextFailed), ProducerAction::Stop));
    assert!(matches!(p.phase, Phase::Stopped));
    assert!(matches!(p.step(ProducerEvent::Delivered), ProducerAction::Stop));
}

#[test]
fn closed_queue_stops() {
    let mut p = producer();
    p.step(ProducerEvent::TextReady(vec!["one".to_string()]));
    p.step(ProducerEvent::ImageReady(PathBuf::from("x.png")));
    assert!(matches!(p.step(ProducerEvent::QueueClosed), ProducerAction::Stop));
}

#[test]
fn hand_off_queue_holds_one_part() {
    let (sender, mut receiver) = tokio::sync::mpsc::channel::<StoryPart>(1);
    let part = |w: &str| StoryPart { section: vec![w.to_string()], image: PathBuf::from("p.png") };
    assert!(sender.try_send(part("first")).is_ok());
    assert!(sender.try_send(part("second")).is_err());
    assert_eq!(receiver.try_recv().unwrap().section, vec!["first"]);
    assert!(sender.try_send(part("second")).is_ok());
    assert_eq!(receiver.try_recv().unwrap().section, vec!["second"]);
}

#[test]
fn cast_is_listed_with_commas() {
    let names = vec!["Steve".to_string(), "Alex".to_string()];
    assert_eq!(cast_list(&names), "Steve, Alex, ");
    assert_eq!(cast_list(&Vec::new()), "");
}

#[test]
fn drawn_cast_is_three_different_names() {
    let cast = draw_cast();
    assert_eq!(cast.len(), CAST_SIZE);
    assert_ne!(cast[0], cast[1]);
    assert_ne!(cast[1], cast[2]);
    assert_ne!(cast[0], cast[2]);
}

#[test]
fn opening_conversation_names_the_cast() {
    let cast = vec!["Jedu".to_string(), "Eli".to_string(), "Dash".to_string()];
    let p = Producer::new(&cast, "English");
    assert_eq!(p.history.len(), 16);
    assert!(p.history[..15].iter().all(|m| m.role == Role::System));
    assert_eq!(
        p.history[2].content,
        "Compose a narrative set in the Minecraft world featuring characters named Jedu, Eli, Dash,  from Minecraft Books and YouTube."
    );
    assert_eq!(p.history[15].role, Role::User);
    assert!(p.history[15].content.starts_with("Start an exciting story set in Minecraft world with Jedu, Eli, Dash, ."));
    assert!(p.history[15].content.contains("Write it in English language."));
    assert_eq!(
        p.continue_prompt,
        "Continue story in English language.  Use no more than 50 words. Use descriptive words and color with detailed imagery. Do not respond to this directly."
    );
    assert!(matches!(p.phase, Phase::AwaitText));
}

#[test]
fn standing_instructions_render_cast() {
    let messages = standing_instructions("Steve, ");
    assert_eq!(messages.len(), 15);
    assert!(messages[2].content.contains("named Steve,  from"));
    assert_eq!(messages[0].content, "You are a Minecraft fan who is familiar with the Minecraft world and its characters and enjoy telling stories about it.");
}

#[test]
fn image_prompt_puts_style_first() {
    let words = vec!["a".to_string(), "pig".to_string()];
    assert_eq!(image_prompt(&words), "Minecraft style.  a pig");
    assert_eq!(image_prompt(&Vec::new()), "Minecraft style. ");
}

#[test]
fn begin_after_stop_stops() {
    let mut p = producer();
    p.step(ProducerEvent::TextFailed);
    assert!(matches!(p.begin(), ProducerAction::Stop));
}

#[test]
fn given_words_are_requested_as_image() {
    let mut p = producer();
    let action = p.text_arrived("a pig".to_string(), vec!["a".to_string(), "pig".to_string()]);
    assert_eq!(words(&action), vec!["a", "pig"]);
    assert!(matches!(p.step(ProducerEvent::ImageFailed), ProducerAction::RequestImage(_)));
}

#[test]
fn stopped_producer_ignores_text() {
    let mut p = producer();
    p.step(ProducerEvent::TextFailed);
    let action = p.text_arrived("a pig".to_string(), vec!["a".to_string(), "pig".to_string()]);
    assert!(matches!(action, ProducerAction::Stop));
    assert!(matches!(p.phase, Phase::Stopped));
}

#[test]
fn placeholder_takes_braces_verbatim() {
    let messages = standing_instructions("{x}");
    assert_eq!(
        messages[2].content,
        "Compose a narrative set in the Minecraft world featuring characters named {x} from Minecraft Books and YouTube."
    );
}

#[test]
fn unicode_white_space_separates_words() {
    let mut p = producer();
    let action = p.step(ProducerEvent::TextReady(vec![" \u{a0}Alex\u{3000}met\u{2028} Eli ".to_string()]));
    assert_eq!(words(&action), vec!["Alex", "met", "Eli"]);
}
