use custom_types::events::WebEvent;

#[test]
fn page_events() {
    assert_eq!(WebEvent::PageLoad.describe(), "page loaded");
    assert_eq!(WebEvent::PageUnload.describe(), "page unloaded");
}

#[test]
fn key_press_names_the_key() {
    assert_eq!(WebEvent::KeyPress('x').describe(), "pressed 'x'.");
    assert_eq!(WebEvent::KeyPress('é').describe(), "pressed 'é'.");
}

#[test]
fn paste_quotes_the_text() {
    assert_eq!(WebEvent::Paste("my text".to_owned()).describe(), "pasted \"my text\".");
    assert_eq!(WebEvent::Paste(String::new()).describe(), "pasted \"\".");
}

#[test]
fn click_gives_coordinates() {
    assert_eq!(WebEvent::Click { x: 20, y: 80 }.describe(), "clicked at x=20, y=80.");
    assert_eq!(WebEvent::Click { x: 0, y: -7 }.describe(), "clicked at x=0, y=-7.");
}

#[test]
fn click_at_the_extremes_of_i64() {
    assert_eq!(
        WebEvent::Click { x: i64::MIN, y: i64::MAX }.describe(),
        "clicked at x=-9223372036854775808, y=9223372036854775807."
    );
    assert_eq!(
        WebEvent::Click { x: 1000, y: -10 }.describe(),
        "clicked at x=1000, y=-10."
    );
}
