use pee5::commands::download_video::{link_after_parse, video_link, VideoLink};
use pee5::commands::imagine::{image_record, image_record_name, saved_image_link};
use pee5::commands::remove_role::holds_role;
use pee5::commands::timeout::{timeout_end, timeout_until};
use pee5::config::GuildConfig;
use pee5::plugins::chat::{chat_list_after_open, is_chat_channel, without_channel};
use pee5::plugins::logging::{deleted_message_time, SimplifiedMessage};

#[test]
fn non_youtube_links_are_refused() {
    assert!(matches!(video_link("https://vimeo.com/1"), VideoLink::NotYoutube));
    assert!(matches!(video_link(""), VideoLink::NotYoutube));
}

#[test]
fn youtube_links_that_parse_are_fetched() {
    match video_link("https://youtu.be/abc") {
        VideoLink::Fetch(p) => assert_eq!(p.url().as_str(), "https://youtu.be/abc"),
        _ => panic!("the link was not fetched"),
    }
}

#[test]
fn youtube_links_that_do_not_parse_are_answered_with_the_error() {
    match video_link("https://youtu.be:99999/abc") {
        VideoLink::Invalid(m) => assert_eq!(m, "Error: invalid port number"),
        _ => panic!("the link was not refused"),
    }
}

#[test]
fn a_refused_parse_becomes_the_error_reply() {
    match link_after_parse(Err("empty host".to_string())) {
        VideoLink::Invalid(m) => assert_eq!(m, "Error: empty host"),
        _ => panic!("the error was not passed on"),
    }
}

#[test]
fn image_record_names_carry_the_message() {
    assert_eq!(image_record_name(1, 22, 333, 4), "tmp/1:22:333:4");
    assert_ne!(image_record_name(1, 22, 333, 4), image_record_name(1, 22, 333, 5));
    assert_ne!(image_record_name(1, 2, 23, 4), image_record_name(1, 22, 3, 4));
}

#[test]
fn saved_image_links() {
    let r = image_record("a cat", "https://x.io/y.png");
    assert_eq!(saved_image_link(&r).unwrap().url().as_str(), "https://x.io/y.png");
    let both = image_record("https://prompt.io/a", "https://x.io/y.png");
    assert_eq!(saved_image_link(&both).unwrap().url().as_str(), "https://x.io/y.png");
    assert!(saved_image_link("only a prompt").is_none());
    assert!(saved_image_link("a cat\nnot a url").is_none());
}

#[test]
fn role_holding() {
    assert!(holds_role(&vec![3, 7, 9], 7));
    assert!(!holds_role(&vec![3, 7, 9], 8));
    assert!(!holds_role(&vec![], 8));
}

#[test]
fn timeout_ends() {
    assert_eq!(timeout_until(100, 60), Some(160));
    assert_eq!(timeout_until(i64::MAX, 1), None);
    assert_eq!(timeout_end(1_700_000_000, 60).unwrap().stamp().unix_timestamp(), 1_700_000_060);
    assert!(timeout_end(i64::MAX, 1).is_none());
    assert!(timeout_end(i64::MAX - 1, 1).is_none());
}

#[test]
fn deleted_message_times() {
    let mut m = SimplifiedMessage {
        id: 1,
        author_id: 2,
        channel_id: 3,
        content: "hi".to_string(),
        unix_timestamp: 1_462_015_105,
    };
    assert_eq!(deleted_message_time(&m).unwrap().stamp().unix_timestamp(), 1_462_015_105);
    m.unix_timestamp = i64::MAX;
    assert!(deleted_message_time(&m).is_none());
}

#[test]
fn opened_chats_are_written_over_the_start_of_the_list() {
    let list = chat_list_after_open("", 123);
    assert_eq!(list, "123");
    assert_eq!(chat_list_after_open(&list, 45), "453");
    assert_eq!(chat_list_after_open("12345678", 9), "92345678");
    assert_eq!(chat_list_after_open("12", 4567), "4567");
    assert!(is_chat_channel(&chat_list_after_open("111222", 45), 45));
    assert_eq!(without_channel("12345", 45), "123");
}

#[test]
fn writes_keep_the_guild_id() {
    let mut c = GuildConfig::new(77);
    *c.get_automod_mut() = true;
    c.get_blacklisted_words_mut().push("x".to_string());
    *c.get_log_channel_id_mut() = Some(5);
    c.get_users_mut().insert(1, 10);
    c.get_afk_mut().insert(1, "away".to_string());
    c.get_plugins_mut().clear();
    assert_eq!(c.get_id(), 77);
    assert!(c.get_automod());
    assert_eq!(c.get_log_channel_id(), Some(5));
}

#[test]
fn removing_an_afk_status_through_the_accessor() {
    let mut c = GuildConfig::new(9);
    c.set_afk(1, "lunch".to_string());
    c.set_afk(2, "sleep".to_string());
    *c.get_automod_mut() = true;
    c.get_afk_mut().remove(&1);
    assert!(!c.get_afk().contains_key(&1));
    assert_eq!(c.get_afk().get(&2), Some(&"sleep".to_string()));
    assert_eq!(c.get_id(), 9);
    assert!(c.get_automod());
}
