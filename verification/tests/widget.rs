use status_blocks::interval::Interval;
use status_blocks::scheduler::Update;
use status_blocks::widget::{DisplaySegment, State, TextWidget};

fn segment(text: &str, icon: &str, state: State) -> DisplaySegment {
    DisplaySegment { text: text.to_string(), icon: icon.to_string(), state }
}

#[test]
fn a_new_widget_is_inert() {
    assert_eq!(TextWidget::new().segment(), segment("", "", State::Idle));
}

#[test]
fn builders_replace_one_field_each() {
    let widget = TextWidget::new().with_text("up").with_icon("net").with_state(State::Warning);
    assert_eq!(widget.segment(), segment("up", "net", State::Warning));
    let widget = widget.with_text("");
    assert_eq!(widget.segment(), segment("", "net", State::Warning));
    let widget = widget.with_icon("disk");
    assert_eq!(widget.segment(), segment("", "disk", State::Warning));
    let widget = widget.with_state(State::Info);
    assert_eq!(widget.segment(), segment("", "disk", State::Info));
}

#[test]
fn setters_replace_one_field_each() {
    let mut widget = TextWidget::new().with_icon("net");
    widget.set_text("down".to_string());
    assert_eq!(widget.segment(), segment("down", "net", State::Idle));
    widget.set_state(State::Critical);
    assert_eq!(widget.segment(), segment("down", "net", State::Critical));
    widget.set_icon("disk");
    assert_eq!(widget.segment(), segment("down", "disk", State::Critical));
}

#[test]
fn setting_the_same_text_twice_changes_nothing_more() {
    let mut widget = TextWidget::new().with_icon("net").with_state(State::Good);
    widget.set_text("down".to_string());
    let once = widget.segment();
    widget.set_text("down".to_string());
    assert_eq!(widget.segment(), once);
}

#[test]
fn a_widget_keeps_no_history() {
    let mut widget = TextWidget::new();
    widget.set_text("one".to_string());
    widget.set_text("two".to_string());
    widget.set_text("one".to_string());
    let mut other = TextWidget::new();
    other.set_text("one".to_string());
    assert_eq!(widget.segment(), other.segment());
}

#[test]
fn an_interval_becomes_a_request_to_poll_again() {
    let wait = Interval::from_secs(5);
    assert_eq!(Update::from(wait), Update::RescheduleAfter(wait));
    assert_ne!(Update::from(wait), Update::NoFurtherUpdates);
    let update: Update = Interval::new(0, 1).unwrap().into();
    assert_eq!(update, Update::RescheduleAfter(Interval::new(0, 1).unwrap()));
}
