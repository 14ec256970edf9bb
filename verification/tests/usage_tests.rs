use std::collections::HashMap;
use telegram_mp3_bot::usage_manager::{UsageManager, UserStats, WEEKLY_LIMIT};

fn empty() -> UsageManager {
    UsageManager::new(HashMap::new(), String::from("user_usage.json"))
}

#[test]
fn new_chat_starts_with_full_quota() {
    let mut m = empty();
    assert_eq!(m.can_download_at(7, 2024, 10), (true, 0, WEEKLY_LIMIT));
    assert_eq!(m.get_user_stats(7), Some(UserStats::for_week(2024, 10)));
    assert_eq!(m.data_file_path(), "user_usage.json");
}

#[test]
fn weekly_limit_of_ten() {
    let mut m = empty();
    let mut allowed = 0;
    for _ in 0..15 {
        let (ok, _, _) = m.can_download_at(1, 2024, 10);
        if ok {
            m.record_download(1);
            allowed += 1;
        }
    }
    assert_eq!(allowed, 10);
    assert_eq!(m.can_download_at(1, 2024, 10), (false, 10, 10));
    assert_eq!(m.get_user_stats(1).unwrap().downloads_this_week, 10);
}

#[test]
fn new_week_resets_counter() {
    let mut m = empty();
    m.can_download_at(1, 2024, 10);
    m.record_download(1);
    m.record_download(1);
    assert_eq!(m.can_download_at(1, 2024, 10), (true, 2, 10));
    assert_eq!(m.can_download_at(1, 2024, 11), (true, 0, 10));
    assert_eq!(m.get_user_stats(1).unwrap().last_reset_week, 11);
    // A new year with the same week number is a new week too.
    m.record_download(1);
    assert_eq!(m.can_download_at(1, 2025, 11), (true, 0, 10));
}

#[test]
fn premium_is_unlimited_and_uncounted() {
    let mut m = empty();
    assert!(m.set_premium_status_at(5, true, 2024, 1));
    assert!(!m.set_premium_status_at(5, true, 2024, 1));
    for _ in 0..20 {
        assert_eq!(m.can_download_at(5, 2024, 1), (true, 0, 0));
        m.record_download(5);
    }
    assert_eq!(m.get_user_stats(5).unwrap().downloads_this_week, 0);
    assert!(m.set_premium_status_at(5, false, 2024, 1));
    assert_eq!(m.can_download_at(5, 2024, 1), (true, 0, 10));
}

#[test]
fn set_premium_false_on_unknown_chat_creates_record() {
    let mut m = empty();
    assert!(!m.set_premium_status_at(9, false, 2024, 3));
    assert_eq!(m.get_user_stats(9), Some(UserStats::for_week(2024, 3)));
}

#[test]
fn record_download_of_unknown_chat_does_nothing() {
    let mut m = empty();
    m.record_download(3);
    assert_eq!(m.get_user_stats(3), None);
    assert!(m.is_empty());
}

#[test]
fn summary_and_listing() {
    let mut m = empty();
    m.can_download_at(1, 2024, 1);
    m.can_download_at(2, 2024, 1);
    m.record_download(2);
    let all = m.get_all_usage_summary().unwrap();
    assert_eq!(all.len(), 2);
    assert_eq!(all[&2].downloads_this_week, 1);
    let mut entries = m.usage_entries();
    entries.sort_by_key(|e| e.0);
    assert_eq!(entries.len(), 2);
    assert_eq!(entries[0].0, 1);
    assert_eq!(entries[1].1.downloads_this_week, 1);
    assert!(m.can_record(2));
}

#[test]
fn clock_based_calls() {
    let mut m = empty();
    let (ok, n, limit) = m.can_download(4).unwrap();
    assert!(ok);
    assert_eq!((n, limit), (0, 10));
    let s = m.get_user_stats(4).unwrap();
    assert!((1..=53).contains(&s.last_reset_week));
    assert_eq!(m.set_premium_status(4, true), Some(true));
    let d = UserStats::for_current_week().unwrap();
    assert!((1..=53).contains(&d.last_reset_week));
    assert_eq!(d.downloads_this_week, 0);
    assert!(!d.is_premium);
}
