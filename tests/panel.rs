use egui_demo::panel::MAX_THREAD_NR;
use egui_demo::text::{decimal_string, greeting};
use egui_demo::ThreadState;

#[test]
fn first_panel() {
    let s = ThreadState::new(0);
    assert_eq!(s.thread_nr(), 0);
    assert_eq!(s.title(), "Background thread 0");
    assert_eq!(s.name, "Arthur");
    assert_eq!(s.age, 12);
}

#[test]
fn later_panel_is_older() {
    let s = ThreadState::new(13);
    assert_eq!(s.title(), "Background thread 13");
    assert_eq!(s.age, 142);
}

#[test]
fn largest_panel_number() {
    let s = ThreadState::new(MAX_THREAD_NR);
    assert_eq!(s.age, 4_294_967_292);
    assert_eq!(s.title(), "Background thread 429496728");
}

#[test]
fn click_raises_only_the_clicked_panel() {
    let mut a = ThreadState::new(0);
    let b = ThreadState::new(1);
    a.click();
    a.click();
    assert_eq!(a.age, 14);
    assert_eq!(a.name, "Arthur");
    assert_eq!(b.age, 22);
}

#[test]
fn panel_greeting() {
    let mut s = ThreadState::new(1);
    s.name = String::from("Ford");
    assert_eq!(s.greeting(), "Hello 'Ford', age 22");
    s.click();
    assert_eq!(s.greeting(), "Hello 'Ford', age 23");
}

#[test]
fn decimal_numbers() {
    assert_eq!(decimal_string(0), "0");
    assert_eq!(decimal_string(7), "7");
    assert_eq!(decimal_string(10), "10");
    assert_eq!(decimal_string(1_234_567_890), "1234567890");
    assert_eq!(decimal_string(u64::MAX), "18446744073709551615");
}

#[test]
fn greeting_with_empty_name() {
    assert_eq!(greeting("", 0), "Hello '', age 0");
}
