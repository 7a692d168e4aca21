use telecord::config::ConfigError;
use telecord::text::split_on;
use telecord::Config;

fn config(mappings: &str) -> Config {
    match Config::new(mappings, "dc-token".to_string(), "tg-token".to_string()) {
        Ok(c) => c,
        Err(e) => panic!("refused: {:?}", e),
    }
}

#[test]
fn pairs_link_both_ways() {
    let c = config("1:10,2:20");
    assert_eq!(c.discord_channel_id(&1), Some(10));
    assert_eq!(c.discord_channel_id(&2), Some(20));
    assert_eq!(c.telegram_chat_id(&10), Some(1));
    assert_eq!(c.telegram_chat_id(&20), Some(2));
    assert_eq!(c.discord_channel_id(&10), None);
    assert_eq!(c.telegram_chat_id(&1), None);
}

#[test]
fn malformed_token_is_skipped() {
    let c = config("111:222,bad,333:444");
    assert_eq!(c.discord_channel_id(&111), Some(222));
    assert_eq!(c.discord_channel_id(&333), Some(444));
    assert_eq!(c.telegram_chat_id(&222), Some(111));
    assert_eq!(c.telegram_chat_id(&444), Some(333));
    assert_eq!(c.discord_channel_id(&0), None);
}

#[test]
fn three_part_token_is_skipped() {
    let c = config("1:2:3,4:5");
    assert_eq!(c.discord_channel_id(&1), None);
    assert_eq!(c.discord_channel_id(&4), Some(5));
}

#[test]
fn empty_mapping_links_nothing() {
    let c = config("");
    assert_eq!(c.discord_channel_id(&0), None);
    assert_eq!(c.telegram_chat_id(&0), None);
}

#[test]
fn non_numeric_entry_is_refused() {
    match Config::new("1:2,3:x,y:4", String::new(), String::new()) {
        Err(ConfigError::Mapping(entry)) => assert_eq!(entry, "3:x"),
        Ok(_) => panic!("accepted"),
    }
}

#[test]
fn negative_discord_id_is_refused() {
    assert!(Config::new("5:-6", String::new(), String::new()).is_err());
}

#[test]
fn negative_telegram_chat_id_is_accepted() {
    let c = config("-1001234:567,+8:9");
    assert_eq!(c.discord_channel_id(&-1001234), Some(567));
    assert_eq!(c.discord_channel_id(&8), Some(9));
}

#[test]
fn later_duplicate_wins() {
    let c = config("1:10,1:20");
    assert_eq!(c.discord_channel_id(&1), Some(20));
    assert_eq!(c.telegram_chat_id(&10), Some(1));
    assert_eq!(c.telegram_chat_id(&20), Some(1));
}

#[test]
fn tokens_are_kept() {
    let c = config("1:2");
    assert_eq!(c.discord(), "dc-token");
    assert_eq!(c.telegram(), "tg-token");
}

#[test]
fn split_keeps_empty_pieces() {
    assert_eq!(split_on("a,,b,", ','), vec!["a", "", "b", ""]);
    assert_eq!(split_on("", ','), vec![""]);
    assert_eq!(split_on("héllo:wörld", ':'), vec!["héllo", "wörld"]);
}
