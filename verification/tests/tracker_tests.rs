use std::cell::RefCell;
use workbook::tracker::quota_message;
use workbook::tracker::LimitTracker;
use workbook::tracker::Messenger;

struct MockMessenger {
    sent_messages: RefCell<Vec<String>>,
}

impl MockMessenger {
    fn new() -> MockMessenger {
        MockMessenger {
            sent_messages: RefCell::new(vec![]),
        }
    }
}

impl Messenger for MockMessenger {
    fn send(&self, message: &str) {
        self.sent_messages.borrow_mut().push(String::from(message));
    }
}

#[test]
fn it_sends_an_over_75_percent_warning_message() {
    let mock_messenger = MockMessenger::new();
    let mut limit_tracker = LimitTracker::new(&mock_messenger, 100);

    limit_tracker.set_value(80);

    assert_eq!(mock_messenger.sent_messages.borrow().len(), 1);
}

#[test]
fn lib_it_works() {
    assert_eq!(2 + 2, 4);
}

#[test]
fn quota_messages_follow_the_thresholds() {
    assert_eq!(None, quota_message(0, 0));
    assert_eq!(None, quota_message(0, 100));
    assert_eq!(None, quota_message(74, 100));
    assert_eq!(
        Some("Warning: You've used up over 75% of your quota!"),
        quota_message(75, 100)
    );
    assert_eq!(
        Some("Warning: You've used up over 75% of your quota!"),
        quota_message(89, 100)
    );
    assert_eq!(
        Some("Urgent warning: You've used up over 90& of your quota!"),
        quota_message(90, 100)
    );
    assert_eq!(
        Some("Urgent warning: You've used up over 90& of your quota!"),
        quota_message(99, 100)
    );
    assert_eq!(
        Some("Error: You are over your quota!"),
        quota_message(100, 100)
    );
    assert_eq!(Some("Error: You are over your quota!"), quota_message(1, 0));
}

#[test]
fn tracker_thresholds_pick_one_message_each() {
    let mock = MockMessenger::new();
    let mut tracker = LimitTracker::new(&mock, 100);
    tracker.set_value(74);
    assert_eq!(0, mock.sent_messages.borrow().len());
    tracker.set_value(75);
    tracker.set_value(90);
    tracker.set_value(100);
    let sent = mock.sent_messages.borrow();
    assert_eq!(3, sent.len());
    assert!(sent[0].starts_with("Warning"));
    assert!(sent[1].starts_with("Urgent warning"));
    assert!(sent[2].starts_with("Error"));
}
