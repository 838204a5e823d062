use mafuyu::autocomplete::{handle_code, handle_search, label, MapAutocomplete, LABEL_WIDTH};
use mafuyu::error::MapError;
use mafuyu::map::{BSMap, MapDetailMetadata, MapStats, MapVersion, UserDetail};

fn map(id: &str, name: &str, uploader: &str) -> BSMap {
    BSMap {
        id: id.to_string(),
        name: name.to_string(),
        description: String::new(),
        metadata: MapDetailMetadata {
            bpm: 120000,
            duration: 60,
            song_name: name.to_string(),
            song_sub_name: String::new(),
            song_author_name: String::new(),
            level_author_name: uploader.to_string(),
        },
        uploaded: 0,
        versions: vec![MapVersion {
            diffs: vec![],
            cover_url: String::new(),
            download_url: String::new(),
        }],
        uploader: UserDetail {
            name: uploader.to_string(),
            id: 7,
            avatar: String::new(),
            verified_mapper: false,
        },
        collaborators: None,
        stats: MapStats { upvotes: 0, downvotes: 0, score: 0 },
        ss_ranked: false,
        bl_ranked: false,
        curated_at: None,
    }
}

fn choice(name: &str, id: &str) -> MapAutocomplete {
    MapAutocomplete { name: name.to_string(), id: id.to_string() }
}

#[test]
fn short_name_is_followed_by_the_uploader() {
    assert_eq!(label("Ghost", "Mapper"), "Ghost [Mapper]");
    assert_eq!(label("", ""), " []");
}

#[test]
fn long_name_is_cut_so_that_the_label_has_a_hundred_characters() {
    let name = "x".repeat(150);
    let text = label(&name, "Mapper");
    assert_eq!(text, format!("{}... [Mapper]", "x".repeat(88)));
    assert_eq!(text.chars().count(), 100);
}

#[test]
fn name_that_just_fits_is_kept() {
    let name = "x".repeat(87);
    assert_eq!(label(&name, "Mapper"), format!("{name} [Mapper]"));
    assert_eq!(label(&name, "Mapper").chars().count(), 96);
}

#[test]
fn name_that_reaches_the_room_for_the_mark_is_marked() {
    for len in [88usize, 89, 90, 91, 92, 93] {
        let text = label(&"x".repeat(len), "Mapper");
        assert_eq!(text, format!("{}... [Mapper]", "x".repeat(88)));
    }
}

#[test]
fn label_counts_characters_not_bytes() {
    let name = "曲".repeat(120);
    let text = label(&name, "作者");
    assert_eq!(text, format!("{}... [作者]", "曲".repeat(92)));
    assert_eq!(text.chars().count(), 100);
    assert_eq!(label("曲", "作者"), "曲 [作者]");
}

#[test]
fn uploader_that_leaves_three_characters_still_follows_the_name() {
    let uploader = "u".repeat(94);
    let text = label("Ghost", &uploader);
    assert_eq!(text, format!("... [{uploader}]"));
    assert_eq!(text.chars().count(), 100);
}

#[test]
fn uploader_that_leaves_no_room_is_cut_with_the_name() {
    let uploader = "u".repeat(95);
    let text = label("Ghost", &uploader);
    assert_eq!(text, format!("Ghost [{}...", "u".repeat(90)));
    assert_eq!(text.chars().count(), 100);
    let text = label(&"x".repeat(300), &"u".repeat(300));
    assert_eq!(text, format!("{}...", "x".repeat(97)));
}

#[test]
fn no_label_is_wider_than_the_limit() {
    assert_eq!(LABEL_WIDTH, 100);
    for name_len in [0usize, 1, 50, 87, 88, 89, 96, 97, 98, 99, 100, 101, 250] {
        for uploader_len in [0usize, 1, 6, 50, 93, 94, 95, 96, 97, 98, 100, 250] {
            let text = label(&"n".repeat(name_len), &"u".repeat(uploader_len));
            assert!(text.chars().count() <= LABEL_WIDTH, "{name_len} {uploader_len}");
        }
    }
}

#[test]
fn fetched_code_gives_one_suggestion_under_the_code() {
    let fetched = Ok(map("2f3a", "Ghost", "Mapper"));
    assert_eq!(handle_code("2F3A".to_string(), &fetched), vec![choice("Ghost [Mapper]", "2F3A")]);
}

#[test]
fn failed_fetch_gives_no_suggestion() {
    for error in [
        MapError::NotFound,
        MapError::TransportError("timed out".to_string()),
        MapError::MalformedResponse("missing field".to_string()),
    ] {
        assert_eq!(handle_code("2f3a".to_string(), &Err(error.clone())), vec![]);
        assert_eq!(handle_search(&Err(error)), vec![]);
    }
}

#[test]
fn search_gives_one_suggestion_for_each_result_in_order() {
    let results = Ok(vec![
        map("b", "Second", "Zed"),
        map("a", "First", "Ann"),
        map("c", &"y".repeat(200), "Long"),
    ]);
    assert_eq!(
        handle_search(&results),
        vec![
            choice("Second [Zed]", "b"),
            choice("First [Ann]", "a"),
            choice(&format!("{}... [Long]", "y".repeat(90)), "c"),
        ]
    );
}

#[test]
fn empty_search_gives_no_suggestion() {
    assert_eq!(handle_search(&Ok(vec![])), vec![]);
}
