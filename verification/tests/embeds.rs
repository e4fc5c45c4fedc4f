use smmo_bot::embed::Embed;
use smmo_bot::general::me::me_embed;
use smmo_bot::general::world_boss::{next_world_boss, next_world_boss_embed};
use smmo_bot::graph::{pie_layout, rgb};
use smmo_bot::hooks::command_error_embed;
use smmo_bot::item::search::search_embed;
use smmo_bot::models::{Item, Orphanage, WorldBosses};
use smmo_bot::smmo::{bool_from_int, datefmt};
use smmo_bot::smmo::smmo_player::SmmoPlayer;
use smmo_bot::smmo::world_boss::WorldBoss;
use smmo_bot::smmo::SmmoModel;
use smmo_bot::time::Timestamp;
use smmo_bot::to_embed::ToEmbed;

fn ts(secs: i64) -> Timestamp {
    Timestamp { secs, nanos: 0 }
}

fn boss(id: u32, current_hp: u32, max_hp: u32, enable: i64) -> WorldBoss {
    WorldBoss {
        id,
        name: format!("Boss {}", id),
        avatar: String::new(),
        level: 50,
        god: 0,
        str: 11,
        def: 22,
        dex: 33,
        current_hp,
        max_hp,
        enable_time: ts(enable),
    }
}

fn player(safe_mode: bool, since: Option<Timestamp>) -> SmmoPlayer {
    SmmoPlayer {
        id: 7,
        name: "Ann".to_string(),
        level: 5,
        motto: String::new(),
        profile_number: String::new(),
        exp: 0,
        gold: 100,
        steps: 0,
        npc_kills: 0,
        user_kills: 0,
        quests_complete: 0,
        dex: 3,
        def: 2,
        str: 1,
        bonus_dex: 6,
        bonus_def: 5,
        bonus_str: 4,
        hp: 10,
        max_hp: 10,
        safe_mode,
        safe_mode_time: since,
        background: 0,
        membership: 0,
        guild: None,
    }
}

fn field(name: &str, value: &str) -> (String, String, bool) {
    (name.to_string(), value.to_string(), true)
}

#[test]
fn boss_embed_when_ready() {
    let b = boss(1, 5, 10, 100);
    let mut e = Embed::new();
    b.embed_at(&mut e, ts(200), ts(200));
    assert_eq!(e.title.as_deref(), Some("Boss 1"));
    assert_eq!(e.description.as_deref(), Some("Ready to be attacked!"));
    assert_eq!(e.fields, vec![
        field("Health", "**`░░░░░░░░░░`**\n5/10 (0%)"),
        field("Stats", "str: 11\ndef: 22\ndex: 33\n"),
    ]);
    assert_eq!(e.colour, None);
}

#[test]
fn boss_embed_when_waiting() {
    let b = boss(1, 10, 10, 100_000);
    let mut e = Embed::new();
    b.embed_at(&mut e, ts(100_000 - 90_061), ts(50));
    assert_eq!(e.description.as_deref(), Some("Ready in: 1 days, 1 hours 1 mins 1 secs."));
    assert_eq!(e.fields[0], field("Health", "**`██████████`**\n10/10 (100%)"));
}

#[test]
fn boss_health_bar_longer_than_ten() {
    let b = boss(2, 25, 10, 0);
    let mut e = Embed::new();
    b.embed_at(&mut e, ts(0), ts(0));
    assert_eq!(e.fields[0].1, format!("**`{}`**\n25/10 (200%)", "█".repeat(20)));
}

#[test]
fn boss_field() {
    let b = boss(3, 1, 1, 100);
    assert_eq!(b.field_at(ts(100), ts(100)), field("Boss 3", "Ready to be attacked!"));
    assert_eq!(b.field_at(ts(99), ts(40)), field("Boss 3", "Ready in: 0 hours 1 mins 0 secs."));
    let long_ago = boss(4, 1, 1, 0);
    assert_eq!(ToEmbed::to_field(&long_ago).unwrap(), field("Boss 4", "Ready to be attacked!"));
    let no_health = boss(10, 1, 0, 0);
    assert_eq!(ToEmbed::to_field(&no_health).unwrap(), field("Boss 10", "Ready to be attacked!"));
}

#[test]
fn boss_model_embed_in_iso_8601() {
    let b = boss(5, 5, 10, 100);
    assert_eq!(b.model_ready(ts(200), ts(200)), "Ready in: -PT100S");
    assert_eq!(b.model_ready(ts(100), ts(0)), "Ready to be attacked!");
    assert_eq!(b.model_ready(ts(50), Timestamp { secs: 50, nanos: 250_000_000 }), "Ready to be attacked!");
    let early = boss(6, 5, 10, 100);
    assert_eq!(early.model_ready(ts(200), Timestamp { secs: 50, nanos: 250_000_000 }), "Ready in: PT49.75S");
    assert_eq!(early.model_ready(ts(200), ts(150)), "Ready in: -PT50S");
    assert_eq!(early.model_ready(ts(200), ts(100)), "Ready in: P0D");
    assert_eq!(early.model_ready(ts(200), Timestamp { secs: 100, nanos: 500_000_000 }), "Ready in: -PT0.5S");
    assert_eq!(early.model_ready(ts(200), Timestamp { secs: 99, nanos: 999_999_995 }), "Ready in: PT0.000000005S");
    let mut e = Embed::new();
    b.model_embed_at(&mut e, ts(0), ts(0));
    assert_eq!(e.fields[0], field("Health", "░░░░░░░░░░ 5/10 (0%)"));
    assert_eq!(<WorldBoss as SmmoModel>::TYPE_NAME, "WorldBoss");
    assert_eq!(<Vec<WorldBoss> as SmmoModel>::TYPE_NAME, "Vec");
    assert_eq!(<SmmoPlayer as SmmoModel>::TYPE_NAME, "SmmoPlayer");
}

#[test]
fn boss_lists() {
    let bosses = WorldBosses(vec![boss(1, 1, 1, 0), boss(2, 1, 1, 0)]);
    let mut e = Embed::new();
    e.title("kept".to_string());
    bosses.to_embed(&mut e).unwrap();
    assert_eq!(e.title.as_deref(), Some("kept"));
    assert_eq!(e.fields, vec![
        field("Boss 1", "Ready to be attacked!"),
        field("Boss 2", "Ready to be attacked!"),
    ]);
    assert_eq!(bosses.to_field().unwrap(), field("test", "test"));
    let none = WorldBosses(vec![]);
    let mut e = Embed::new();
    e.field("kept".to_string(), "x".to_string(), false);
    assert!(none.to_embed(&mut e).is_ok());
    assert_eq!(e.fields, vec![("kept".to_string(), "x".to_string(), false)]);
    let empty: Vec<WorldBoss> = vec![];
    let mut e = Embed::new();
    assert!(SmmoModel::to_embed(&empty, &mut e).is_ok());
    assert!(e.fields.is_empty());
    let far = WorldBosses(vec![boss(3, 1, 1, 10_000_000_000_000)]);
    let mut e = Embed::new();
    far.to_embed(&mut e).unwrap();
    assert!(e.fields[0].1.starts_with("Ready in: "));
    assert!(e.fields[0].1.contains(" days, "));
    let v = vec![boss(1, 1, 1, 0)];
    let mut e = Embed::new();
    SmmoModel::to_embed(&v, &mut e).unwrap();
    assert!(e.fields[0].1.starts_with("Ready in: -PT"));
    assert_eq!(SmmoModel::to_field(&v).unwrap(), field("test", "test"));
}

#[test]
fn next_boss_is_earliest_last_on_tie() {
    let bosses = vec![boss(0, 1, 1, 3), boss(1, 1, 1, 1), boss(2, 1, 1, 2), boss(3, 1, 1, 1)];
    assert_eq!(next_world_boss(bosses).map(|b| b.id), Some(3));
    let bosses = vec![boss(0, 1, 1, 5), boss(1, 1, 1, 4), boss(2, 1, 1, 6)];
    assert_eq!(next_world_boss(bosses).map(|b| b.id), Some(1));
    assert!(next_world_boss(vec![]).is_none());
    let e = next_world_boss_embed(None).unwrap();
    assert_eq!(e.title.as_deref(), Some("No world bosses available at this time."));
    assert!(e.fields.is_empty());
    let e = next_world_boss_embed(Some(boss(9, 1, 1, 0))).unwrap();
    assert_eq!(e.title.as_deref(), Some("Boss 9"));
}

#[test]
fn player_embeds() {
    let p = player(false, None);
    let mut e = Embed::new();
    p.embed_at(&mut e, ts(0));
    assert_eq!(e.title.as_deref(), Some("Ann"));
    assert_eq!(e.description.as_deref(), Some("This player is not currently in safe mode."));
    assert_eq!(e.fields, vec![
        field("General", "Level: 5\nGold: 100"),
        field("Stats", "str: 1 (+ 4 bonus)\ndef: 2 (+ 5 bonus)\ndex: 3 (+ 6 bonus)\n"),
    ]);
    assert_eq!(ToEmbed::to_field(&p).unwrap(), field("Ann", "Level: 5\nGold: 100"));
    let mut e = Embed::new();
    ToEmbed::to_embed(&p, &mut e).unwrap();
    assert_eq!(e.description.as_deref(), Some("This player is not currently in safe mode."));
    let p = player(true, None);
    assert_eq!(p.safe_mode_line(ts(0)), "This player is permanently in safe mode.");
    let p = player(true, Some(ts(1000)));
    assert_eq!(p.safe_mode_line(ts(1000 + 3661)), "This player's safe mode expires in 22:58:59.");
    assert_eq!(p.safe_mode_line(ts(1000 + 86_400 + 61)), "This player's safe mode expires in 0:-1:-1.");
    let mut e = Embed::new();
    SmmoModel::to_embed(&p, &mut e).unwrap();
    assert_eq!(e.description.as_deref(), Some("You are currently in safe mode."));
    assert_eq!(e.fields[0], field("General information", "Level: 5\nGold: 100"));
}

#[test]
fn me_answers() {
    let e = me_embed(&None).unwrap();
    assert_eq!(e.title.as_deref(), Some("Who are you?"));
    assert_eq!(
        e.description.as_deref(),
        Some("I don't know who you are! Send `$myid <your smmo id>` to identify yourself.")
    );
    let e = me_embed(&Some(player(false, None))).unwrap();
    assert_eq!(e.title.as_deref(), Some("Ann"));
}

#[test]
fn orphanage_progress() {
    let o = Orphanage { current_amount: 30, max_amount: 100, recent_donators: vec![] };
    let mut e = Embed::new();
    o.to_embed(&mut e).unwrap();
    assert_eq!(e.title.as_deref(), Some("Orphanage"));
    assert_eq!(e.description.as_deref(), Some("Amount remaining: 70\n(30/100"));
    assert_eq!(e.colour, Some(0xFF0000));
    assert_eq!(o.to_field().unwrap(), field("Orphanage", "Amount remaining: 70\n(30/100"));
    let o = Orphanage { current_amount: 120, max_amount: 100, recent_donators: vec![] };
    let mut e = Embed::new();
    o.to_embed(&mut e).unwrap();
    assert_eq!(e.description.as_deref(), Some("Goal reached!"));
    assert_eq!(e.colour, Some(0x00FF00));
}

fn item(name: &str, description: Option<&str>) -> Item {
    Item {
        id: 1,
        name: name.to_string(),
        description: description.map(|d| d.to_string()),
        level: 1,
        value: 1,
        rarity_name: "Rare".to_string(),
        rarity_colour: 0x123456,
    }
}

#[test]
fn item_embeds_and_search() {
    let mut e = Embed::new();
    item("Sword", None).to_embed(&mut e).unwrap();
    assert_eq!(e.title.as_deref(), Some("Sword"));
    assert_eq!(e.description.as_deref(), Some(""));
    assert_eq!(e.colour, Some(0x123456));
    let mut e = Embed::new();
    item("Axe", Some("Sharp")).to_embed(&mut e).unwrap();
    assert_eq!(e.description.as_deref(), Some("Sharp"));
    assert_eq!(item("Axe", None).to_field().unwrap(), field("Axe", "Rare"));
    let items: Vec<Item> = (0..30).map(|i| item(&format!("item {}", i), None)).collect();
    let e = search_embed(&items);
    assert_eq!(e.fields.len(), 25);
    assert_eq!(e.fields[0], field("item 0", "Rare"));
    assert_eq!(e.fields[24], field("item 24", "Rare"));
    let e = search_embed(&items[..3].iter().map(|i| item(&i.name, None)).collect());
    assert_eq!(e.fields.len(), 3);
    assert!(search_embed(&vec![]).fields.is_empty());
}

#[test]
fn error_answer() {
    let e = command_error_embed("boom");
    assert_eq!(e.title.as_deref(), Some("Uh-oh!"));
    assert_eq!(e.description.as_deref(), Some("Something went wrong!\n\nError: boom"));
}

#[test]
fn flags_from_integers() {
    assert_eq!(bool_from_int(0), Ok(false));
    assert_eq!(bool_from_int(1), Ok(true));
    assert_eq!(bool_from_int(2), Err(2));
    assert_eq!(bool_from_int(255), Err(255));
}

#[test]
fn pie_chart_layout() {
    let items = [
        (696u32, (1u8, 2u8, 3u8), "Uncommon"),
        (3270, (4, 5, 6), "Elite"),
        (1312, (7, 8, 9), "Common"),
        (382, (10, 11, 12), "Exotic"),
        (1323, (13, 14, 15), "Rare"),
        (11136, (16, 17, 18), "Celestial"),
        (3409, (19, 20, 21), "Epic"),
        (3905, (255, 0, 128), "Legendary"),
    ];
    let p = pie_layout(&items);
    assert_eq!(p.total, 25433);
    assert_eq!(p.text_height, 6);
    let ys: Vec<usize> = p.legend.iter().map(|l| l.y).collect();
    assert_eq!(ys, vec![6, 12, 18, 24, 30, 36, 42, 48]);
    assert_eq!(p.legend[7].colour, "rgb(255,0,128)");
    assert_eq!(rgb(0, 0, 0), "rgb(0,0,0)");
    let one = [(5u32, (1u8, 1u8, 1u8), "only")];
    let p = pie_layout(&one);
    assert_eq!(p.text_height, 50);
    assert_eq!(p.legend[0].y, 50);
}

#[test]
fn embed_builder_replaces_and_appends() {
    let mut e = Embed::new();
    e.title("a".to_string());
    e.title("b".to_string());
    e.field("x".to_string(), "1".to_string(), false);
    e.fields(vec![field("y", "2"), field("z", "3")]);
    assert_eq!(e.title.as_deref(), Some("b"));
    assert_eq!(e.fields, vec![("x".to_string(), "1".to_string(), false), field("y", "2"), field("z", "3")]);
}

#[test]
fn boss_field_matches_embed() {
    for (enable, now) in [(100i64, 200i64), (100_000, 50), (7_200, 3_600)] {
        let b = boss(8, 3, 4, enable);
        let mut e = Embed::new();
        b.embed_at(&mut e, ts(now), ts(now));
        let (name, value, inline) = b.field_at(ts(now), ts(now));
        assert_eq!(e.title, Some(name));
        assert_eq!(e.description, Some(value));
        assert!(inline);
    }
}

#[test]
fn api_dates() {
    assert_eq!(datefmt("2021-03-04 05:06:07"), Some((1614834367, 0)));
    assert_eq!(datefmt("1970-01-01 00:00:00"), Some((0, 0)));
    assert_eq!(datefmt("2016-12-31 23:59:60"), Some((1483228799, 1_000_000_000)));
    assert_eq!(datefmt("2021-03-04T05:06:07"), None);
    assert_eq!(datefmt("not a date"), None);
    assert_eq!(datefmt("2021-02-30 00:00:00"), None);
}

#[test]
fn instants_in_rfc_3339() {
    assert_eq!(Timestamp { secs: 0, nanos: 0 }.rfc3339().as_deref(), Some("1970-01-01T00:00:00+00:00"));
    assert_eq!(
        Timestamp { secs: 1614834367, nanos: 500_000_000 }.rfc3339().as_deref(),
        Some("2021-03-04T05:06:07.500+00:00")
    );
    assert_eq!(Timestamp { secs: 10_000_000_000_000, nanos: 0 }.rfc3339(), None);
}
