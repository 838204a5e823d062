use mafuyu::embed::{ActionRow, Embed};
use mafuyu::error::MapError;
use mafuyu::map::{
    BSMap, Characteristic, DifficultyLevel, MapDetail, MapDetailMetadata, MapStats, MapVersion,
    UserDetail,
};
use mafuyu::mapembed::MapEmbed;
use mafuyu::session::{SelectionEvent, Session, SessionAction, SESSION_WINDOW};

const AUTHOR: u64 = 11;
const CHANNEL: u64 = 22;
const MESSAGE: u64 = 33;
const START: u64 = 1_700_000_000;

fn diff(characteristic: Characteristic, difficulty: DifficultyLevel) -> MapDetail {
    MapDetail {
        njs: 16000,
        nps: 4000,
        notes: 100,
        bombs: 0,
        obstacles: 0,
        bl_stars: None,
        ss_stars: None,
        events: 0,
        label: None,
        characteristic,
        difficulty,
    }
}

fn sample_map() -> BSMap {
    BSMap {
        id: "1a2b".to_string(),
        name: "Song".to_string(),
        description: "About the song".to_string(),
        metadata: MapDetailMetadata {
            bpm: 128000,
            duration: 200,
            song_name: "Song".to_string(),
            song_sub_name: String::new(),
            song_author_name: "Artist".to_string(),
            level_author_name: "Mapper".to_string(),
        },
        uploaded: 1_600_000_000,
        versions: vec![MapVersion {
            diffs: vec![
                diff(Characteristic::Standard, DifficultyLevel::Easy),
                diff(Characteristic::Standard, DifficultyLevel::ExpertPlus),
            ],
            cover_url: "https://cdn.example/cover.jpg".to_string(),
            download_url: "https://cdn.example/map.zip".to_string(),
        }],
        uploader: UserDetail {
            name: "Mapper".to_string(),
            id: 1,
            avatar: String::new(),
            verified_mapper: true,
        },
        collaborators: Some(vec![]),
        stats: MapStats { upvotes: 1, downvotes: 0, score: 6000 },
        ss_ranked: false,
        bl_ranked: false,
        curated_at: None,
    }
}

fn session() -> Session {
    Session::start(MapEmbed::new(sample_map()), AUTHOR, CHANNEL, MESSAGE, START)
}

fn event(token: &str, at: u64) -> SelectionEvent {
    SelectionEvent {
        author_id: AUTHOR,
        channel_id: CHANNEL,
        message_id: MESSAGE,
        custom_id: "diffsel".to_string(),
        values: vec![token.to_string()],
        at,
    }
}

fn update_of(session: &Session) -> (Vec<Embed>, Vec<ActionRow>) {
    let mut embed = session.embed.clone();
    (embed.build_embeds(), embed.build_embed_components())
}

#[test]
fn new_session_is_open_and_shows_the_overview() {
    let s = session();
    assert!(s.open);
    assert_eq!(s.last_render, START);
    assert_eq!(s.embed.selected_index(), 0);
    assert_eq!((s.author_id, s.channel_id, s.message_id), (AUTHOR, CHANNEL, MESSAGE));
}

#[test]
fn selection_in_time_updates_the_message() {
    let mut s = session();
    let action = s.handle(&event("StandardExpertPlus", START + 10));
    assert_eq!(s.embed.selected_index(), 2);
    assert!(s.open);
    let (embeds, components) = update_of(&s);
    assert_eq!(embeds[0].description, Some("ExpertPlus".to_string()));
    assert_eq!(action, SessionAction::Update { embeds, components });
}

#[test]
fn selection_of_the_overview_renders_the_overview() {
    let mut s = session();
    s.handle(&event("StandardEasy", START + 1));
    let action = s.handle(&event("0", START + 2));
    assert_eq!(s.embed.selected_index(), 0);
    match action {
        SessionAction::Update { embeds, .. } => {
            assert_eq!(embeds.len(), 1);
            assert_eq!(embeds[0].description, Some("About the song".to_string()));
        },
        other => panic!("expected an update, found {other:?}"),
    }
}

#[test]
fn selection_sixteen_minutes_after_the_last_render_edits_nothing() {
    let mut s = session();
    let before = s.embed.clone();
    let action = s.handle(&event("StandardExpertPlus", START + 16 * 60));
    assert_eq!(action, SessionAction::Close);
    assert!(!s.open);
    assert_eq!(s.embed, before);
}

#[test]
fn window_closes_at_fifteen_minutes_sharp() {
    assert_eq!(SESSION_WINDOW, 15 * 60);
    let mut s = session();
    assert!(matches!(
        s.handle(&event("StandardEasy", START + SESSION_WINDOW - 1)),
        SessionAction::Update { .. }
    ));
    let mut s = session();
    assert_eq!(s.handle(&event("StandardEasy", START + SESSION_WINDOW)), SessionAction::Close);
}

#[test]
fn closed_session_stays_closed() {
    let mut s = session();
    s.handle(&event("StandardEasy", START + 2000));
    assert!(!s.open);
    assert_eq!(s.handle(&event("StandardEasy", START + 1)), SessionAction::Close);
    assert_eq!(s.embed.selected_index(), 0);
    s.rendered(START + 3000);
    assert_eq!(s.handle(&event("StandardEasy", START + 3001)), SessionAction::Close);
}

#[test]
fn close_ends_the_session() {
    let mut s = session();
    let before = s.clone();
    s.close();
    assert_eq!(s, Session { open: false, ..before });
    assert_eq!(s.handle(&event("0", START)), SessionAction::Close);
    assert_eq!(s.remaining(START), 0);
}

#[test]
fn events_for_others_are_ignored() {
    let strangers = [
        SelectionEvent { author_id: AUTHOR + 1, ..event("StandardEasy", START + 1) },
        SelectionEvent { channel_id: CHANNEL + 1, ..event("StandardEasy", START + 1) },
        SelectionEvent { message_id: MESSAGE + 1, ..event("StandardEasy", START + 1) },
        SelectionEvent { custom_id: "othermenu".to_string(), ..event("StandardEasy", START + 1) },
        SelectionEvent { custom_id: "Diffsel".to_string(), ..event("StandardEasy", START + 1) },
    ];
    for stranger in strangers {
        let mut s = session();
        let before = s.clone();
        assert_eq!(s.handle(&stranger), SessionAction::Ignore);
        assert_eq!(s, before);
    }
}

#[test]
fn late_event_closes_even_when_it_is_for_another_session() {
    let mut s = session();
    let stranger = SelectionEvent { author_id: 99, ..event("StandardEasy", START + 901) };
    assert_eq!(s.handle(&stranger), SessionAction::Close);
    assert!(!s.open);
}

#[test]
fn unknown_token_fails_and_changes_nothing() {
    let mut s = session();
    s.handle(&event("StandardEasy", START + 1));
    let before = s.clone();
    for token in ["", "1", "StandardHard", "Metadata"] {
        assert_eq!(
            s.handle(&event(token, START + 2)),
            SessionAction::Fail(MapError::ContractViolation)
        );
        assert_eq!(s, before);
    }
}

#[test]
fn event_without_a_token_fails_and_changes_nothing() {
    let mut s = session();
    let before = s.clone();
    let empty = SelectionEvent { values: vec![], ..event("0", START + 1) };
    assert_eq!(s.handle(&empty), SessionAction::Fail(MapError::ContractViolation));
    assert_eq!(s, before);
}

#[test]
fn first_token_of_several_counts() {
    let mut s = session();
    let several = SelectionEvent {
        values: vec!["StandardExpertPlus".to_string(), "StandardEasy".to_string()],
        ..event("0", START + 1)
    };
    assert!(matches!(s.handle(&several), SessionAction::Update { .. }));
    assert_eq!(s.embed.selected_index(), 2);
}

#[test]
fn handling_does_not_move_the_window() {
    let mut s = session();
    s.handle(&event("StandardEasy", START + 800));
    assert_eq!(s.last_render, START);
    assert_eq!(s.handle(&event("0", START + 900)), SessionAction::Close);
}

#[test]
fn render_starts_the_window_again() {
    let mut s = session();
    s.handle(&event("StandardEasy", START + 800));
    s.rendered(START + 801);
    assert_eq!(s.last_render, START + 801);
    assert!(matches!(s.handle(&event("0", START + 1700)), SessionAction::Update { .. }));
    assert_eq!(s.handle(&event("0", START + 1701)), SessionAction::Close);
}

#[test]
fn render_in_the_past_changes_nothing() {
    let mut s = session();
    let before = s.clone();
    s.rendered(START - 1);
    assert_eq!(s, before);
    s.rendered(START);
    assert_eq!(s, before);
}

#[test]
fn event_from_before_the_render_is_in_time() {
    let mut s = session();
    assert!(matches!(s.handle(&event("StandardEasy", START - 5)), SessionAction::Update { .. }));
    assert!(matches!(s.handle(&event("StandardEasy", 0)), SessionAction::Update { .. }));
}

#[test]
fn remaining_time_counts_down_from_the_last_render() {
    let s = session();
    assert_eq!(s.remaining(START), 900);
    assert_eq!(s.remaining(START - 100), 900);
    assert_eq!(s.remaining(START + 1), 899);
    assert_eq!(s.remaining(START + 899), 1);
    assert_eq!(s.remaining(START + 900), 0);
    assert_eq!(s.remaining(u64::MAX), 0);
}

#[test]
fn expiry_does_not_overflow_at_the_end_of_time() {
    let mut s = Session::start(MapEmbed::new(sample_map()), AUTHOR, CHANNEL, MESSAGE, u64::MAX - 10);
    assert!(!s.is_expired(u64::MAX));
    assert_eq!(s.remaining(u64::MAX), 890);
    assert!(matches!(s.handle(&event("0", u64::MAX)), SessionAction::Update { .. }));
    let t = Session::start(MapEmbed::new(sample_map()), AUTHOR, CHANNEL, MESSAGE, 0);
    assert!(!t.is_expired(899));
    assert!(t.is_expired(900));
}
