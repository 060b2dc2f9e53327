use std::cmp::Ordering;

use aggregation::calling_style::{CallingStyle, CallingStyleVisitor, CallingStyleVisitorState};

#[test]
fn calling_style_order() {
    assert_eq!(CallingStyle::Once.partial_cmp(&CallingStyle::Once), Some(Ordering::Equal));
    assert_eq!(CallingStyle::ZeroOrOnce.partial_cmp(&CallingStyle::OneOrMore), None);
    assert_eq!(CallingStyle::OneOrMore.partial_cmp(&CallingStyle::ZeroOrOnce), None);
    assert_eq!(CallingStyle::Once.partial_cmp(&CallingStyle::ZeroOrOnce), Some(Ordering::Greater));
    assert_eq!(CallingStyle::Once.partial_cmp(&CallingStyle::ZeroOrMore), Some(Ordering::Greater));
    assert_eq!(CallingStyle::Once.partial_cmp(&CallingStyle::OneOrMore), Some(Ordering::Greater));
    assert_eq!(CallingStyle::ZeroOrOnce.partial_cmp(&CallingStyle::Once), Some(Ordering::Less));
    assert_eq!(CallingStyle::ZeroOrOnce.partial_cmp(&CallingStyle::ZeroOrMore), Some(Ordering::Greater));
    assert_eq!(CallingStyle::ZeroOrMore.partial_cmp(&CallingStyle::Once), Some(Ordering::Less));
    assert_eq!(CallingStyle::ZeroOrMore.partial_cmp(&CallingStyle::ZeroOrOnce), Some(Ordering::Less));
    assert_eq!(CallingStyle::ZeroOrMore.partial_cmp(&CallingStyle::OneOrMore), Some(Ordering::Less));
    assert_eq!(CallingStyle::OneOrMore.partial_cmp(&CallingStyle::Once), Some(Ordering::Less));
    assert_eq!(CallingStyle::OneOrMore.partial_cmp(&CallingStyle::ZeroOrMore), Some(Ordering::Greater));
    assert!(CallingStyle::Once > CallingStyle::ZeroOrMore);
    assert!(!(CallingStyle::ZeroOrOnce < CallingStyle::OneOrMore) && !(CallingStyle::ZeroOrOnce > CallingStyle::OneOrMore));
}

#[test]
fn visitor_tracks_target_and_scopes() {
    let mut v = CallingStyleVisitor::new(String::from("target"));
    assert_eq!(v.scope_now(), None);
    v.enter_target();
    assert_eq!(v.scope_now(), Some(CallingStyleVisitorState::Block));
    let previous = v.enter_scope(CallingStyleVisitorState::Loop);
    assert_eq!(previous, Some(CallingStyleVisitorState::Block));
    let inner = v.enter_scope(CallingStyleVisitorState::Closure);
    assert_eq!(inner, Some(CallingStyleVisitorState::Loop));
    v.leave_scope(inner);
    assert_eq!(v.scope_now(), Some(CallingStyleVisitorState::Loop));
    v.leave_scope(previous);
    v.leave_target();
    assert_eq!(v.scope_now(), None);
    assert_eq!(v.reference, "target");
    assert_eq!(v.result(), Some(CallingStyle::Once));
}

#[test]
fn visitor_without_target_finds_nothing() {
    let v = CallingStyleVisitor::new(7u32);
    assert_eq!(v.result(), None);
}
