use swears::Color;
use swears::ColorString;
use swears::Colorize;
use swears::terminal::pair_index;

#[test]
fn tagging_str_keeps_text_and_sets_color() {
    let red = "alarm".red();
    assert_eq!(red.to_color(), Color::Red);
    assert_eq!(red.text(), "alarm");

    let blue = "sea".blue();
    assert_eq!(blue.to_color(), Color::Blue);
    assert_eq!(blue.text(), "sea");

    let green = "ok".green();
    assert_eq!(green.to_color(), Color::Green);
    assert_eq!(green.text(), "ok");

    let yellow = "warn".yellow();
    assert_eq!(yellow.to_color(), Color::Yellow);
    assert_eq!(yellow.text(), "warn");

    let magenta = "hue".magenta();
    assert_eq!(magenta.to_color(), Color::Magenta);
    assert_eq!(magenta.text(), "hue");

    let cyan = "ice".cyan();
    assert_eq!(cyan.to_color(), Color::Cyan);
    assert_eq!(cyan.text(), "ice");

    let black = "ink".black();
    assert_eq!(black.to_color(), Color::Black);
    assert_eq!(black.text(), "ink");

    let white = "snow".white();
    assert_eq!(white.to_color(), Color::White);
    assert_eq!(white.text(), "snow");

    let plain = "plain".default();
    assert_eq!(plain.to_color(), Color::Default);
    assert_eq!(plain.text(), "plain");
}

#[test]
fn tagging_string_keeps_text_and_sets_color() {
    let fail = String::from("fail").red();
    assert_eq!(fail.to_color(), Color::Red);
    assert_eq!(fail.text(), "fail");

    let ok = format!("{} {}", "all", "good").green();
    assert_eq!(ok.to_color(), Color::Green);
    assert_eq!(ok.text(), "all good");
}

#[test]
fn untagged_text_converts_to_default_color() {
    let cs = ColorString::from(String::from("hello"));
    assert_eq!(cs.to_color(), Color::Default);
    assert_eq!(cs.text(), "hello");
}

#[test]
fn default_color_string_is_empty_and_default() {
    let cs = ColorString::default();
    assert_eq!(cs.to_color(), Color::Default);
    assert_eq!(cs.text(), "");
}

#[test]
fn reads_do_not_consume_or_change_the_pair() {
    let cs = ColorString(Color::Cyan, String::from("twice"));
    assert_eq!(cs.to_color(), Color::Cyan);
    assert_eq!(cs.to_color(), Color::Cyan);
    assert_eq!(cs.text(), "twice");
    assert_eq!(cs.text(), "twice");
}

#[test]
fn pair_indices_follow_the_curses_numbering() {
    assert_eq!(pair_index(Color::Black), 0);
    assert_eq!(pair_index(Color::Red), 1);
    assert_eq!(pair_index(Color::Green), 2);
    assert_eq!(pair_index(Color::Yellow), 3);
    assert_eq!(pair_index(Color::Blue), 4);
    assert_eq!(pair_index(Color::Magenta), 5);
    assert_eq!(pair_index(Color::Cyan), 6);
    assert_eq!(pair_index(Color::White), 7);
}

#[test]
fn default_color_falls_back_to_the_white_pair() {
    assert_eq!(pair_index(Color::Default), pair_index(Color::White));
}
