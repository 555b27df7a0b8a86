use biedbot::api::{ApiError, Offer};
use biedbot::cache::{BiedCache, CacheEntry};
use biedbot::render::{account_list, card_link, keyboard_rows, offer_overview, removed, renamed};
use biedbot::api::{AuthData, AuthenticatedUser};
use biedbot::secrets::TelegramConfig;
use biedbot::text::{copy_texts, join, same_text};

fn offer(name: &str) -> Offer {
    Offer {
        id: "id".to_string(),
        name: name.to_string(),
        details: "d".to_string(),
        limit: "l".to_string(),
        image: None,
        human_time: "t".to_string(),
        regular_price: "2".to_string(),
        regular_price_unit: "2/kg".to_string(),
        offer_price: "1".to_string(),
        offer_price_unit: "1/kg".to_string(),
        discount_percent: 50,
    }
}

fn names(list: &[&str]) -> Vec<String> {
    list.iter().map(|n| n.to_string()).collect()
}

#[test]
fn new_cache_is_empty() {
    let cache = BiedCache::new();
    assert!(cache.entries().is_empty());
    assert_eq!(cache.get_offers("shop"), None);
}

#[test]
fn cache_keeps_offers_by_title() {
    let mut cache = BiedCache::new();
    cache.insert("shop".to_string(), vec![offer("Butter")]);
    cache.insert("home".to_string(), vec![offer("Milk"), offer("Bread")]);
    assert_eq!(cache.get_offers("shop"), Some(&vec![offer("Butter")]));
    assert_eq!(cache.get_offers("home"), Some(&vec![offer("Milk"), offer("Bread")]));
    assert_eq!(cache.get_offers("Shop"), None);
    assert_eq!(cache.get_offers(""), None);
}

#[test]
fn cache_insert_replaces_in_place() {
    let mut cache = BiedCache::new();
    cache.insert("a".to_string(), vec![offer("1")]);
    cache.insert("b".to_string(), vec![offer("2")]);
    cache.insert("a".to_string(), vec![offer("3")]);
    assert_eq!(
        cache.entries(),
        &vec![
            CacheEntry { title: "a".to_string(), offers: vec![offer("3")] },
            CacheEntry { title: "b".to_string(), offers: vec![offer("2")] },
        ]
    );
}

#[test]
fn cache_record_keeps_offers_and_skips_failures() {
    let mut cache = BiedCache::new();
    cache.record("a".to_string(), Ok(vec![offer("1")]));
    cache.record("b".to_string(), Err(ApiError("offline".to_string())));
    cache.record("a".to_string(), Err(ApiError("offline".to_string())));
    assert_eq!(cache.get_offers("a"), Some(&vec![offer("1")]));
    assert_eq!(cache.get_offers("b"), None);
    assert_eq!(cache.entries().len(), 1);
}

#[test]
fn cache_clear_forgets_everything() {
    let mut cache = BiedCache::new();
    cache.insert("a".to_string(), vec![offer("1")]);
    cache.clear();
    assert!(cache.entries().is_empty());
    assert_eq!(cache.get_offers("a"), None);
}

#[test]
fn cache_never_collected_is_always_due() {
    let mut cache = BiedCache::new();
    assert!(cache.sync_due());
    for day in 1..=31 {
        assert!(!cache.is_current(day));
    }
    assert!(cache.is_current(u32::MAX));
    cache.insert("a".to_string(), vec![offer("1")]);
    cache.clear();
    assert!(cache.sync_due());
}

#[test]
fn overview_lists_accounts_with_their_offers() {
    let mut cache = BiedCache::new();
    cache.insert("shop".to_string(), vec![offer("Butter"), offer("Milk")]);
    cache.insert("home".to_string(), vec![offer("Bread")]);
    assert_eq!(
        offer_overview(cache.entries()),
        "Current offers:\n\nshop:\nButter - 2/kg => 1/kg\nMilk - 2/kg => 1/kg\n\nhome:\nBread - 2/kg => 1/kg\n"
    );
}

#[test]
fn overview_of_empty_cache_and_empty_account() {
    assert_eq!(offer_overview(&Vec::new()), "Current offers:\n\n");
    let mut cache = BiedCache::new();
    cache.insert("shop".to_string(), Vec::new());
    assert_eq!(offer_overview(cache.entries()), "Current offers:\n\nshop:\n\n");
}

fn user(phone: &str, card: &str) -> AuthenticatedUser {
    AuthenticatedUser {
        phone_number: phone.to_string(),
        card_number: card.to_string(),
        auth: AuthData {
            users1: "a".to_string(),
            users2: "b".to_string(),
            csrf_token: "c".to_string(),
        },
    }
}

#[test]
fn account_list_shows_title_and_user() {
    let accounts = vec![("shop".to_string(), user("+1", "11")), ("home".to_string(), user("+2", "22"))];
    assert_eq!(
        account_list(&accounts),
        "*shop* \\- phone: `+1`; card: `11`;\n\n*home* \\- phone: `+2`; card: `22`;"
    );
    assert_eq!(account_list(&accounts[..1].to_vec()), "*shop* \\- phone: `+1`; card: `11`;");
    assert_eq!(account_list(&Vec::new()), "");
}

#[test]
fn keyboard_has_two_buttons_to_a_row() {
    assert_eq!(keyboard_rows(Vec::new()), Vec::<Vec<String>>::new());
    assert_eq!(keyboard_rows(names(&["a"])), vec![names(&["a"])]);
    assert_eq!(keyboard_rows(names(&["a", "b"])), vec![names(&["a", "b"])]);
    assert_eq!(keyboard_rows(names(&["a", "b", "c"])), vec![names(&["a", "b"]), names(&["c"])]);
    assert_eq!(
        keyboard_rows(names(&["a", "b", "c", "d", "e"])),
        vec![names(&["a", "b"]), names(&["c", "d"]), names(&["e"])]
    );
}

#[test]
fn card_link_points_to_frontend() {
    assert_eq!(
        card_link("https://ean.example/?code=", "9900"),
        "[View card\u{1F4B3}](https://ean.example/?code=9900)"
    );
}

#[test]
fn join_puts_separator_between_parts() {
    assert_eq!(join(&Vec::new(), ", "), "");
    assert_eq!(join(&names(&["a"]), ", "), "a");
    assert_eq!(join(&names(&["a", "b", "c"]), ", "), "a, b, c");
    assert_eq!(join(&names(&["", ""]), "-"), "-");
    assert_eq!(join(&names(&["a", "b"]), ""), "ab");
}

#[test]
fn same_text_compares_characters() {
    assert!(same_text("", ""));
    assert!(same_text("abc", "abc"));
    assert!(!same_text("abc", "abd"));
    assert!(!same_text("abc", "ab"));
    assert!(!same_text("ab", "abc"));
    assert!(same_text("\u{17c}\u{f3}\u{142}w", "\u{17c}\u{f3}\u{142}w"));
    assert!(!same_text("\u{e9}", "e"));
}

#[test]
fn maintainers_are_admins() {
    let config = TelegramConfig { bot_token: "token".to_string(), maintainer_ids: vec![7, 42] };
    assert!(config.is_admin(7));
    assert!(config.is_admin(42));
    assert!(!config.is_admin(8));
    assert!(config.accepts(Some(42)));
    assert!(!config.accepts(Some(1)));
    assert!(!config.accepts(None));
    let nobody = TelegramConfig { bot_token: String::new(), maintainer_ids: Vec::new() };
    assert!(!nobody.is_admin(7));
    assert!(!nobody.accepts(Some(7)));
}

#[test]
fn rename_and_remove_are_announced() {
    assert_eq!(renamed("shop", "home"), "Renamed user shop to home");
    assert_eq!(removed(&user("+1", "11")), "Removed user phone: `+1`; card: `11`;");
}

#[test]
fn copy_texts_keeps_every_text() {
    assert_eq!(copy_texts(&names(&["a", "", "c"])), names(&["a", "", "c"]));
    assert_eq!(copy_texts(&Vec::new()), Vec::<String>::new());
}
