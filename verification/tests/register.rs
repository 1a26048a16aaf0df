use gio_bot::embeds::EmbedColor;
use gio_bot::register::{
    has_tier_prefix, replays_url, stars_url, validate_url, RegisterAction, RegisterEvent,
    RegisterStage, Registration,
};

fn refusal_text(a: &RegisterAction) -> String {
    match a {
        RegisterAction::Refuse(e) => {
            assert_eq!(e.title, "Register Error");
            assert_eq!(e.color, EmbedColor::Error);
            e.description.clone()
        }
        other => panic!("expected a refusal, got {:?}", other),
    }
}

#[test]
fn urls_encode_the_username() {
    assert_eq!(
        validate_url("[B-tier]Alice"),
        "https://generals.io/api/validateUsername?u=%5BB-tier%5DAlice"
    );
    assert_eq!(
        replays_url("a b"),
        "https://generals.io/api/replaysForUsername?u=a%20b&offset=0&count=1"
    );
    assert_eq!(stars_url("é~._-"), "https://generals.io/api/starsAndRanks?u=%C3%A9~._-");
    assert_eq!(stars_url(""), "https://generals.io/api/starsAndRanks?u=");
}

#[test]
fn tier_prefix_check() {
    assert!(has_tier_prefix("[b-tier]x"));
    assert!(has_tier_prefix("[b-tier]"));
    assert!(!has_tier_prefix("[B-tier]x"));
    assert!(!has_tier_prefix("[b-tie"));
    assert!(!has_tier_prefix(" [b-tier]"));
}

#[test]
fn full_registration() {
    let (r, a) = Registration::start("[B-tier]Alice".to_string(), 42);
    assert_eq!(r.stage, RegisterStage::ValidateName);
    match a {
        RegisterAction::Fetch(url) => {
            assert_eq!(url, "https://generals.io/api/validateUsername?u=%5BB-tier%5DAlice")
        }
        other => panic!("{:?}", other),
    }
    let (r, a) = r.step(RegisterEvent::NameChecked(Some(true)));
    match a {
        RegisterAction::Fetch(url) => assert_eq!(
            url,
            "https://generals.io/api/replaysForUsername?u=%5BB-tier%5DAlice&offset=0&count=1"
        ),
        other => panic!("{:?}", other),
    }
    let (r, a) = r.step(RegisterEvent::ReplaysChecked(Some(1)));
    match a {
        RegisterAction::Lookup { discord, username } => {
            assert_eq!(discord, 42);
            assert_eq!(username, "[B-tier]Alice");
        }
        other => panic!("{:?}", other),
    }
    let (r, a) = r.step(RegisterEvent::Looked { has_discord: false, has_username: false });
    assert_eq!(r.stage, RegisterStage::Inserting);
    match a {
        RegisterAction::Insert { discord, username } => {
            assert_eq!(discord, 42);
            assert_eq!(username, "[B-tier]Alice");
        }
        other => panic!("{:?}", other),
    }
    let (r, a) = r.step(RegisterEvent::Inserted);
    assert_eq!(r.stage, RegisterStage::Finished);
    match a {
        RegisterAction::Confirm(e) => {
            assert_eq!(e.title, "Registered");
            assert_eq!(e.description, "Username: [B-tier]Alice\nDiscord: <@42>");
            assert_eq!(e.color, EmbedColor::Game);
        }
        other => panic!("{:?}", other),
    }
    let (r, a) = r.step(RegisterEvent::Inserted);
    assert_eq!(r.stage, RegisterStage::Finished);
    assert!(matches!(a, RegisterAction::Nothing));
}

#[test]
fn prefix_is_checked_in_lower_case() {
    let (r, _) = Registration::start("[B-TIER]Bob".to_string(), 1);
    assert_eq!(r.stage, RegisterStage::ValidateName);
    let (r, a) = Registration::start("Bob".to_string(), 1);
    assert_eq!(r.stage, RegisterStage::Finished);
    assert_eq!(refusal_text(&a), "generals.io username does not begin with [B-tier]");
    let (r, _) = Registration::start("[B-TİER]Bob".to_string(), 1);
    assert_eq!(r.stage, RegisterStage::Finished);
}

#[test]
fn unknown_account_is_refused() {
    for reply in [Some(false), None] {
        let (r, _) = Registration::start("[b-tier]x".to_string(), 1);
        let (r, a) = r.step(RegisterEvent::NameChecked(reply));
        assert_eq!(r.stage, RegisterStage::Finished);
        assert_eq!(refusal_text(&a), "generals.io username does not exist");
    }
}

#[test]
fn account_without_games_is_refused() {
    for reply in [Some(0), Some(2), None] {
        let (r, _) = Registration::start("[b-tier]x".to_string(), 1);
        let (r, _) = r.step(RegisterEvent::NameChecked(Some(true)));
        let (r, a) = r.step(RegisterEvent::ReplaysChecked(reply));
        assert_eq!(r.stage, RegisterStage::Finished);
        assert_eq!(refusal_text(&a), "generals.io username does not have games");
    }
}

#[test]
fn taken_link_is_refused() {
    for (d, u) in [(true, false), (false, true), (true, true)] {
        let (r, _) = Registration::start("[b-tier]x".to_string(), 1);
        let (r, _) = r.step(RegisterEvent::NameChecked(Some(true)));
        let (r, _) = r.step(RegisterEvent::ReplaysChecked(Some(1)));
        let (r, a) = r.step(RegisterEvent::Looked { has_discord: d, has_username: u });
        assert_eq!(r.stage, RegisterStage::Finished);
        assert_eq!(refusal_text(&a), "generals.io username or discord user already registered");
    }
}

#[test]
fn out_of_order_answer_does_nothing() {
    let (r, _) = Registration::start("[b-tier]x".to_string(), 1);
    let (r, a) = r.step(RegisterEvent::Inserted);
    assert_eq!(r.stage, RegisterStage::ValidateName);
    assert!(matches!(a, RegisterAction::Nothing));
    let (r, a) = r.step(RegisterEvent::Looked { has_discord: false, has_username: false });
    assert_eq!(r.stage, RegisterStage::ValidateName);
    assert!(matches!(a, RegisterAction::Nothing));
}

#[test]
fn refused_registration_never_inserts() {
    let (r, _) = Registration::start("[b-tier]x".to_string(), 1);
    let (r, _) = r.step(RegisterEvent::NameChecked(Some(false)));
    let (r, a1) = r.step(RegisterEvent::ReplaysChecked(Some(1)));
    let (r, a2) = r.step(RegisterEvent::Looked { has_discord: false, has_username: false });
    assert_eq!(r.stage, RegisterStage::Finished);
    assert!(matches!(a1, RegisterAction::Nothing));
    assert!(matches!(a2, RegisterAction::Nothing));
}

#[test]
fn fetch_answer_follows_the_stage() {
    let (r, _) = Registration::start("[b-tier]x".to_string(), 1);
    assert_eq!(r.fetch_answer(Some(true), Some(3)), RegisterEvent::NameChecked(Some(true)));
    let (r, _) = r.step(RegisterEvent::NameChecked(Some(true)));
    assert_eq!(r.fetch_answer(Some(true), Some(3)), RegisterEvent::ReplaysChecked(Some(3)));
    assert_eq!(r.fetch_answer(None, None), RegisterEvent::ReplaysChecked(None));
}

#[test]
fn start_with_given_lower_case_form() {
    let (r, a) = Registration::start_lowered("[B-Tier]Q".to_string(), "[b-tier]q", 9);
    assert_eq!(r.stage, RegisterStage::ValidateName);
    assert_eq!(r.username, "[B-Tier]Q");
    assert_eq!(r.discord, 9);
    match a {
        RegisterAction::Fetch(url) => {
            assert_eq!(url, "https://generals.io/api/validateUsername?u=%5BB-Tier%5DQ")
        }
        other => panic!("{:?}", other),
    }
    let (r, a) = Registration::start_lowered("[B-Tier]Q".to_string(), "[B-Tier]q", 9);
    assert_eq!(r.stage, RegisterStage::Finished);
    assert_eq!(refusal_text(&a), "generals.io username does not begin with [B-tier]");
}
