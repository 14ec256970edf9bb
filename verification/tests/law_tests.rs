use std::collections::HashMap;
use telegram_mp3_bot::bot::{handle_text, handle_text_at, Command};
use telegram_mp3_bot::text::{chars_of, decimal_i64, parse_bool, parse_i64, split_words};
use telegram_mp3_bot::usage_manager::UsageManager;

#[test]
fn printed_ids_parse_back() {
    for i in [0i64, 7, -7, 123456789, i64::MAX, i64::MIN] {
        assert_eq!(parse_i64(&chars_of(&decimal_i64(i))), Some(i));
    }
    assert_eq!(parse_bool(&chars_of("true")), Some(true));
    assert_eq!(parse_bool(&chars_of("false")), Some(false));
}

#[test]
fn printed_setpremium_command_is_three_words() {
    let words = split_words(&chars_of("/setpremium -15 false"));
    assert_eq!(words.len(), 3);
    assert_eq!(words[1], chars_of("-15"));
}

#[test]
fn quota_check_is_idempotent_and_local() {
    let mut m = UsageManager::new(HashMap::new(), String::from("f.json"));
    m.can_download_at(1, 2024, 5);
    m.record_download(1);
    let before_other = m.get_user_stats(1);
    let first = m.can_download_at(2, 2024, 5);
    let after_first = m.get_user_stats(2);
    let second = m.can_download_at(2, 2024, 5);
    assert_eq!(first, second);
    assert_eq!(after_first, m.get_user_stats(2));
    assert_eq!(before_other, m.get_user_stats(1));
}

#[test]
fn commands_never_convert() {
    let mut m = UsageManager::new(HashMap::new(), String::from("f.json"));
    for c in [Command::Download, Command::SetPremium, Command::MyId, Command::Usage] {
        let p = handle_text_at(&mut m, 1, 1, "https://youtu.be/x", Some(c), None, 2024, 5);
        assert!(!p.convert);
    }
}

#[test]
fn a_check_adds_at_most_one_record() {
    let mut m = UsageManager::new(HashMap::new(), String::from("f.json"));
    m.can_download_at(1, 2024, 5);
    assert_eq!(m.get_all_usage_summary().unwrap().len(), 1);
    m.can_download_at(1, 2024, 6);
    assert_eq!(m.get_all_usage_summary().unwrap().len(), 1);
    m.can_download_at(2, 2024, 6);
    assert_eq!(m.get_all_usage_summary().unwrap().len(), 2);
}

#[test]
fn clock_free_answers_and_repeated_premium() {
    let mut m = UsageManager::new(HashMap::new(), String::from("f.json"));
    let p = handle_text(&mut m, 1, 9, "/myid", Some(Command::MyId), None).unwrap();
    assert_eq!(p.messages[0].text, "Your Telegram User ID is: `9`");
    let p = handle_text(&mut m, 1, 9, "hello", None, None).unwrap();
    assert!(!p.convert);
    assert!(m.is_empty());
    assert_eq!(m.set_premium_status(4, true), Some(true));
    assert_eq!(m.set_premium_status(4, true), Some(false));
}
