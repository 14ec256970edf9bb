use std::collections::HashMap;
use telegram_mp3_bot::bot::{
    finish_conversion, handle_text_at, is_youtube_url, Command, Outgoing, Plan,
};
use telegram_mp3_bot::usage_manager::UsageManager;

const OWNER: i64 = 100;

fn mgr() -> UsageManager {
    UsageManager::new(HashMap::new(), String::from("user_usage.json"))
}

fn texts(p: &Plan) -> Vec<(i64, String, bool)> {
    p.messages.iter().map(|o: &Outgoing| (o.chat_id, o.text.clone(), o.markdown)).collect()
}

fn run(m: &mut UsageManager, chat: i64, text: &str, cmd: Option<Command>, reply: Option<&str>) -> Plan {
    handle_text_at(m, OWNER, chat, text, cmd, reply, 2024, 20)
}

#[test]
fn download_and_myid_commands() {
    let mut m = mgr();
    let p = run(&mut m, 5, "/download", Some(Command::Download), None);
    assert_eq!(
        texts(&p),
        vec![(5, "Please send me the YouTube URL you want to convert to MP3".to_string(), false)]
    );
    assert!(!p.convert);
    let p = run(&mut m, -42, "/myid", Some(Command::MyId), None);
    assert_eq!(texts(&p), vec![(-42, "Your Telegram User ID is: `-42`".to_string(), false)]);
}

#[test]
fn set_premium_command() {
    let mut m = mgr();
    let p = run(&mut m, 5, "/setpremium 7 true", Some(Command::SetPremium), None);
    assert_eq!(
        texts(&p),
        vec![(5, "🚫 You are not authorized to use this command.".to_string(), false)]
    );
    let p = run(&mut m, OWNER, "/setpremium 7", Some(Command::SetPremium), None);
    assert_eq!(p.messages[0].text, "Usage: /setpremium <user_id> <true|false>");
    let p = run(&mut m, OWNER, "/setpremium x true", Some(Command::SetPremium), None);
    assert_eq!(p.messages[0].text, "Invalid user_id. Must be a number.");
    let p = run(&mut m, OWNER, "/setpremium 7 yes", Some(Command::SetPremium), None);
    assert_eq!(p.messages[0].text, "Invalid status. Must be 'true' or 'false'.");
    let p = run(&mut m, OWNER, "/setpremium  7\ttrue ", Some(Command::SetPremium), None);
    assert_eq!(
        texts(&p),
        vec![
            (OWNER, "Premium status for user 7 set to true.".to_string(), false),
            (7, "Your access has been updated! You now have unlimited downloads!.".to_string(), false),
        ]
    );
    assert!(m.get_user_stats(7).unwrap().is_premium);
    let p = run(&mut m, OWNER, "/setpremium 7 true", Some(Command::SetPremium), None);
    assert_eq!(
        texts(&p),
        vec![(OWNER, "Premium status for user 7 was already true. No change made.".to_string(), false)]
    );
    let p = run(&mut m, OWNER, "/setpremium 7 false", Some(Command::SetPremium), None);
    assert_eq!(
        p.messages[1].text,
        "Your access has been updated! You now have standard free tier (10 downloads/week).."
    );
}

#[test]
fn usage_command() {
    let mut m = mgr();
    let p = run(&mut m, OWNER, "/usage", Some(Command::Usage), None);
    assert_eq!(texts(&p), vec![(OWNER, "No usage data available yet.".to_string(), false)]);
    m.can_download_at(12345, 2024, 20);
    m.record_download(12345);
    let p = run(&mut m, OWNER, "/usage", Some(Command::Usage), None);
    let expected = "📊 **User Usage Summary:**\n\n`User ID        | Downloads | Premium`\n`------------------------------------`\n".to_string()
        + &format!("`{: <15} | {: <9} | {: <7}`\n", 12345i64, 1u32, false);
    assert_eq!(texts(&p), vec![(OWNER, expected, true)]);
    let p = run(&mut m, 1, "/usage", Some(Command::Usage), None);
    assert_eq!(p.messages[0].text, "🚫 You are not authorized to use this command.");
}

#[test]
fn url_messages_and_quota() {
    let mut m = mgr();
    let url = "https://www.youtube.com/watch?v=abc";
    let p = run(&mut m, 3, url, None, None);
    assert!(p.convert);
    assert_eq!(p.messages[0].text, "You have 10 downloads remaining this week.");
    assert!(finish_conversion(&mut m, 3, Ok(())).is_none());
    let p = run(&mut m, 3, url, None, None);
    assert_eq!(p.messages[0].text, "You have 9 downloads remaining this week.");
    let e = finish_conversion(&mut m, 3, Err("Conversion timed out".to_string())).unwrap();
    assert_eq!(e.text, "Error: Conversion timed out");
    assert_eq!(m.get_user_stats(3).unwrap().downloads_this_week, 1);
    for _ in 0..9 {
        let p = run(&mut m, 3, url, None, None);
        assert!(p.convert);
        finish_conversion(&mut m, 3, Ok(()));
    }
    let p = run(&mut m, 3, url, None, None);
    assert!(!p.convert);
    assert_eq!(
        p.messages[0].text,
        "🚫 You've reached your weekly limit of 10 free songs. You've downloaded 10 songs this week.\n\nWant unlimited downloads? Contact us! ➡️ @Vibedownload"
    );
}

#[test]
fn replies_to_the_prompt() {
    let mut m = mgr();
    let prompt = Some("Please send me the YouTube URL you want to convert to MP3");
    let p = run(&mut m, 8, "not a link", None, prompt);
    assert!(!p.convert);
    assert_eq!(
        texts(&p),
        vec![
            (8, "You have 10 downloads remaining this week.".to_string(), false),
            (8, "That doesn't look like a YouTube URL. Please send a valid YouTube URL.".to_string(), false),
        ]
    );
    let p = run(&mut m, 8, "https://youtu.be/xyz", None, prompt);
    assert!(p.convert);
    m.set_premium_status_at(8, true, 2024, 20);
    let p = run(&mut m, 8, "https://youtu.be/xyz", None, prompt);
    assert_eq!(p.messages[0].text, "You have unlimited downloads. Processing your request!");
    assert!(p.convert);
}

#[test]
fn other_texts() {
    let mut m = mgr();
    let p = run(&mut m, 8, "hello", None, Some("something else"));
    assert_eq!(
        texts(&p),
        vec![(8, "I can only process YouTube URLs for MP3 conversion. Please send a valid YouTube URL.".to_string(), false)]
    );
    assert!(m.is_empty());
    assert!(is_youtube_url("see youtube.com/watch?list=1"));
    assert!(is_youtube_url("https://youtu.be/a"));
    assert!(!is_youtube_url("https://vimeo.com/1"));
}
