use cute_bot::corpus::quote_corpus;
use cute_bot::corpus::reason_corpus;
use cute_bot::dispatch::blitz_reply;
use cute_bot::dispatch::handle_message;
use cute_bot::dispatch::handle_ready;
use cute_bot::dispatch::handle_unrecognized_command;
use cute_bot::dispatch::whyrust_reply;
use cute_bot::dispatch::Action;
use cute_bot::responder::pics_link;
use cute_bot::responder::render_color_info;
use cute_bot::responder::render_ping;
use cute_bot::responder::render_quote;
use cute_bot::responder::render_reason;
use cute_bot::responder::BlitzQuote;
use cute_bot::responder::ACCENT_COLOR;
use cute_bot::store::EmptyStoreError;
use cute_bot::store::Store;

#[test]
fn pick_random_index_in_range() {
    let store = Store::new(vec![10u32, 11, 12, 13, 14]);
    for _ in 0..200 {
        let v = *store.pick_random().unwrap();
        assert!((10..15).contains(&v));
    }
}

#[test]
fn pick_random_eventually_selects_every_index() {
    let store = Store::new((0usize..9).collect::<Vec<usize>>());
    let mut seen = [false; 9];
    for _ in 0..5000 {
        let v = *store.pick_random().unwrap();
        seen[v] = true;
    }
    assert!(seen.iter().all(|s| *s), "some index was never selected: {:?}", seen);
}

#[test]
fn pick_random_on_empty_store_fails() {
    let store: Store<u32> = Store::new(vec![]);
    assert_eq!(store.pick_random(), Err(EmptyStoreError));
    assert_eq!(store.len(), 0);
}

#[test]
fn render_quote_is_pure() {
    let entry = BlitzQuote::new("He who analyses blitz is stupid.", "Rashid Nezhmetdinov");
    let p1 = render_quote(&entry);
    let p2 = render_quote(&entry);
    assert_eq!(p1.title, p2.title);
    assert_eq!(p1.description, p2.description);
    assert_eq!(p1.footer_text, p2.footer_text);
    assert_eq!(p1.accent_color, p2.accent_color);
    assert_eq!(p1.fields.len(), p2.fields.len());
    for (f1, f2) in p1.fields.iter().zip(p2.fields.iter()) {
        assert_eq!(f1.name, f2.name);
        assert_eq!(f1.value, f2.value);
        assert_eq!(f1.inline, f2.inline);
    }
}

#[test]
fn render_quote_malakhov_entry() {
    let store = quote_corpus();
    assert_eq!(store.len(), 9);
    let entry = store.get(6);
    assert_eq!(entry.quote, "Blitz is simply a waste of time.");
    assert_eq!(entry.author, "Vladimir Malakhov");
    let p = render_quote(entry);
    assert_eq!(p.description, "\"Blitz is simply a waste of time.\"");
    assert_eq!(p.footer_text.as_deref(), Some("- Vladimir Malakhov"));
    assert_eq!(p.title, None);
    assert!(p.fields.is_empty());
    assert_eq!(p.accent_color, ACCENT_COLOR);
}

#[test]
fn render_reason_cargo_entry() {
    let store = reason_corpus();
    assert_eq!(store.len(), 4);
    assert_eq!(store.get(0).as_str(), "Why not?");
    assert_eq!(store.get(1).as_str(), "Sane defaults");
    assert_eq!(store.get(2).as_str(), "It is fun!");
    let p = render_reason(store.get(3));
    assert_eq!(p.description, "cargo");
    assert_eq!(p.title.as_deref(), Some("Why rust?!"));
    assert_eq!(p.footer_text, None);
    assert_eq!(p.accent_color, ACCENT_COLOR);
}

#[test]
fn ping_message_yields_ping_embed() {
    match handle_message("!ping") {
        Action::SendEmbed(p) => {
            assert_eq!(p.title.as_deref(), Some("This is a title"));
            assert_eq!(p.description, "This is a description");
            assert_eq!(p.footer_text.as_deref(), Some("This is a footer"));
            assert_eq!(p.fields.len(), 3);
            assert_eq!(p.fields.iter().filter(|f| f.inline).count(), 2);
            assert_eq!(p.fields.iter().filter(|f| !f.inline).count(), 1);
        }
        _ => panic!("expected an embed send for !ping"),
    }
}

#[test]
fn pics_message_yields_plain_link() {
    match handle_message(".pics") {
        Action::SendText(s) => assert_eq!(s, pics_link()),
        _ => panic!("expected a plain-text send for .pics"),
    }
}

#[test]
fn other_message_is_ignored() {
    assert!(matches!(handle_message("!pings"), Action::Ignore));
    assert!(matches!(handle_message(""), Action::Ignore));
    assert!(matches!(handle_message("hello there"), Action::Ignore));
}

#[test]
fn unrecognized_command_logs_once_and_sends_nothing() {
    match handle_unrecognized_command("frobnicate") {
        Action::Log(m) => assert_eq!(m, "Could not find command named 'frobnicate'"),
        _ => panic!("expected exactly one log action and no send"),
    }
}

#[test]
fn ready_event_logs_identity() {
    match handle_ready("cute-bot") {
        Action::Log(m) => assert_eq!(m, "cute-bot is connected!"),
        _ => panic!("expected a log action on ready"),
    }
}

#[test]
fn color_info_reply_is_fixed() {
    let p = render_color_info();
    assert_eq!(p.title.as_deref(), Some("Set your own role color!"));
    assert!(p.description.starts_with("You can get cute :sparkles: by using the color commands at <#855703545398427668>"));
    assert!(p.description.ends_with("let Lucy know!"));
    assert_eq!(p.footer_text, None);
    assert_eq!(p.accent_color, ACCENT_COLOR);
}

#[test]
fn accent_color_is_pink() {
    assert_eq!(ACCENT_COLOR, 0xFFC0CB);
    let p = render_ping();
    assert_eq!(p.accent_color, 0xFFC0CB);
}

#[test]
fn blitz_reply_renders_some_corpus_entry() {
    let store = quote_corpus();
    let p = blitz_reply(&store).unwrap();
    let mut matched = false;
    for i in 0..store.len() {
        let entry = store.get(i);
        let expected = format!("\"{}\"", entry.quote);
        if p.description == expected {
            assert_eq!(p.footer_text.as_deref(), Some(format!("- {}", entry.author).as_str()));
            matched = true;
        }
    }
    assert!(matched, "reply does not render any corpus entry");
    assert_eq!(p.accent_color, ACCENT_COLOR);
    assert_eq!(p.title, None);
}

#[test]
fn whyrust_reply_renders_some_corpus_entry() {
    let store = reason_corpus();
    let p = whyrust_reply(&store).unwrap();
    let mut matched = false;
    for i in 0..store.len() {
        if &p.description == store.get(i) {
            matched = true;
        }
    }
    assert!(matched, "reply does not render any corpus entry");
    assert_eq!(p.title.as_deref(), Some("Why rust?!"));
    assert_eq!(p.accent_color, ACCENT_COLOR);
}

#[test]
fn command_replies_on_empty_stores_fail() {
    let quotes: Store<BlitzQuote> = Store::new(vec![]);
    assert!(blitz_reply(&quotes).is_err());
    let reasons: Store<String> = Store::new(vec![]);
    assert!(whyrust_reply(&reasons).is_err());
}
