use gio_bot::database::{discord_from_sql, discord_to_sql};
use gio_bot::embeds::{error, internal_error, profile, registered, EmbedColor};
use gio_bot::options::{
    mention_target, profile_username, register_username, CommandOption, OptionValue,
};
use gio_bot::profile::{estimate_iq, profile_check, user_lookup, user_not_registered};

fn opt(name: &str, value: OptionValue) -> CommandOption {
    CommandOption { name: name.to_string(), value }
}

fn text(s: &str) -> OptionValue {
    OptionValue::Text(s.to_string())
}

#[test]
fn iq_adjusts_by_letters() {
    assert_eq!(estimate_iq(100, "abc"), Some(98));
    assert_eq!(estimate_iq(100, "Fad"), Some(92));
    assert_eq!(estimate_iq(100, "bbbbb"), Some(100));
    assert_eq!(estimate_iq(100, "é"), Some(97));
    assert_eq!(estimate_iq(100, "AAAA"), Some(107));
}

#[test]
fn iq_is_held_to_range() {
    assert_eq!(estimate_iq(200, "bbbbb"), Some(160));
    assert_eq!(estimate_iq(-10, "bbbbb"), Some(0));
    assert_eq!(estimate_iq(i64::MIN, "bbbbb"), Some(0));
    assert_eq!(estimate_iq(i64::MAX, "abc"), Some(160));
}

#[test]
fn iq_overflow_is_reported() {
    assert_eq!(estimate_iq(i64::MAX, "bbbbbbbb"), None);
    assert_eq!(estimate_iq(i64::MIN, "b"), None);
}

#[test]
fn profile_embed_text() {
    let e = profile("Bob", Some(7), Some("12.50".to_string()), None, 101);
    assert_eq!(e.title, "Profile: Bob");
    assert_eq!(
        e.description,
        "**Discord**: <@7>\n**FFA Stars**: 12.50\n**1v1 Stars**: ---\n**Estimated IQ**: 101"
    );
    assert_eq!(e.color, EmbedColor::Game);
    let e = profile("Bob", None, None, Some("3.00".to_string()), -3);
    assert_eq!(e.description, "**FFA Stars**: ---\n**1v1 Stars**: 3.00\n**Estimated IQ**: -3");
    let e = profile("x", Some(u64::MAX), None, None, 0);
    assert_eq!(
        e.description,
        "**Discord**: <@18446744073709551615>\n**FFA Stars**: ---\n**1v1 Stars**: ---\n**Estimated IQ**: 0"
    );
}

#[test]
fn error_embeds() {
    let e = error(None, "x".to_string());
    assert_eq!(e.title, "Error");
    assert_eq!(e.description, "x");
    assert_eq!(e.color, EmbedColor::Error);
    let e = error(Some("Register Error".to_string()), "y".to_string());
    assert_eq!(e.title, "Register Error");
    let e = internal_error("boom", "Boom { code: 1 }");
    assert_eq!(e.title, "Internal Error");
    assert_eq!(e.description, "boom\n\n```rust\nBoom { code: 1 }\n```");
    assert_eq!(e.color, EmbedColor::Error);
    let e = user_not_registered();
    assert_eq!(e.title, "Error");
    assert_eq!(e.description, "Discord user not registered");
}

#[test]
fn registered_embed_text() {
    let e = registered("[B-tier]Zed", 1234567890123);
    assert_eq!(e.title, "Registered");
    assert_eq!(e.description, "Username: [B-tier]Zed\nDiscord: <@1234567890123>");
    assert_eq!(e.color, EmbedColor::Game);
}

#[test]
fn profile_check_passes_only_true() {
    assert!(profile_check(Some(true)).is_none());
    for reply in [Some(false), None] {
        let e = profile_check(reply).unwrap();
        assert_eq!(e.title, "Error");
        assert_eq!(e.description, "generals.io username does not exist");
    }
}

#[test]
fn username_options_are_joined() {
    let opts = vec![
        opt("username", text("ab")),
        opt("other", text("zz")),
        opt("username", OptionValue::Missing),
        opt("username", text("cd")),
    ];
    assert_eq!(profile_username(&opts), "abcd");
    assert_eq!(profile_username(&vec![]), "");
    let opts = vec![opt("username", text("[B-tier]q")), opt("x", OptionValue::Other)];
    assert_eq!(register_username(&opts), "[B-tier]q");
}

#[test]
fn mention_replaces_author() {
    assert_eq!(mention_target(5, &vec![]).unwrap(), 5);
    assert_eq!(mention_target(5, &vec![opt("mention", text("123"))]).unwrap(), 123);
    assert_eq!(mention_target(5, &vec![opt("mention", text("+7"))]).unwrap(), 7);
    assert_eq!(mention_target(5, &vec![opt("mention", OptionValue::Missing)]).unwrap(), 5);
    assert_eq!(
        mention_target(5, &vec![opt("mention", text("1")), opt("mention", text("2"))]).unwrap(),
        2
    );
    assert_eq!(mention_target(5, &vec![opt("username", text("9"))]).unwrap(), 5);
}

#[test]
fn bad_mention_is_an_error() {
    assert!(mention_target(5, &vec![opt("mention", text("x1"))]).is_err());
    assert!(mention_target(5, &vec![opt("mention", text(""))]).is_err());
    assert!(mention_target(5, &vec![opt("mention", text("18446744073709551616"))]).is_err());
    assert!(mention_target(5, &vec![opt("mention", text("-1"))]).is_err());
    assert!(
        mention_target(5, &vec![opt("mention", text("x")), opt("mention", text("3"))]).is_err()
    );
}

#[test]
fn discord_ids_round_trip_through_the_database() {
    assert_eq!(discord_to_sql(u64::MAX), -1);
    assert_eq!(discord_from_sql(-1), u64::MAX);
    for id in [0u64, 1, 1 << 63, 123456789012345678, u64::MAX] {
        assert_eq!(discord_from_sql(discord_to_sql(id)), id);
    }
}

#[test]
fn appended_letters_shift_the_estimate() {
    let base = estimate_iq(100, "bbbbb").unwrap();
    assert_eq!(base, 100);
    assert_eq!(estimate_iq(100, "bbbbba"), Some(base + 3));
    assert_eq!(estimate_iq(100, "bbbbbb"), Some(base + 1));
    assert_eq!(estimate_iq(100, "bbbbbF"), Some(base - 4));
    assert_eq!(estimate_iq(100, "bbbbbc"), Some(base - 1));
    assert_eq!(estimate_iq(100, "bbbbbD"), Some(base - 2));
    assert_eq!(estimate_iq(100, "bbbbbé"), Some(base + 2));
    assert_eq!(estimate_iq(2, "bbbbbF"), Some(0));
    assert_eq!(estimate_iq(159, "bbbbba"), Some(160));
}

#[test]
fn user_lookup_answers() {
    assert_eq!(user_lookup(Some("[B-tier]Q".to_string())).unwrap(), "[B-tier]Q");
    let e = user_lookup(None).unwrap_err();
    assert_eq!(e.title, "Error");
    assert_eq!(e.description, "Discord user not registered");
    assert_eq!(e.color, EmbedColor::Error);
}

#[test]
fn bad_mention_error_is_that_of_its_text() {
    let e = mention_target(5, &vec![opt("mention", text("x")), opt("mention", text(""))]).unwrap_err();
    assert_eq!(e, "x".parse::<u64>().unwrap_err());
    let e = mention_target(5, &vec![opt("mention", text("")), opt("mention", text("x"))]).unwrap_err();
    assert_eq!(e, "".parse::<u64>().unwrap_err());
    assert_ne!(e, "x".parse::<u64>().unwrap_err());
    let e = mention_target(5, &vec![opt("mention", text("1")), opt("mention", text("99999999999999999999"))]).unwrap_err();
    assert_eq!(e, "99999999999999999999".parse::<u64>().unwrap_err());
}
