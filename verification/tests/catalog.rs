use game_engine::catalog::{critter_sheet, entry_sound_url, success_sound_url, CritterSoundSet, CritterSpecies};
use game_engine::keyed::KeyedList;
use game_engine::sprites::{FrameLayout, LayoutType};
use game_engine::catalog::{
    base_url_for_origin, collect_sounds, compose_catalog, critter_file_url, critter_sounds, parse_catalog_pointers,
    parse_pointer_line, resolve_sound_url, resolve_sprite_url, sound_patterns, CompiledPattern, CATALOG_URL, CRITTER_DIR,
};

#[test]
fn pointer_lines() {
    assert_eq!(parse_pointer_line("\"bird\": \"bird.ron\","), Some(("bird".to_string(), "bird.ron".to_string())));
    assert_eq!(parse_pointer_line("\"bunny\" : \"sub/bunny.ron\""), Some(("bunny".to_string(), "sub/bunny.ron".to_string())));
    // not a .ron file
    assert_eq!(parse_pointer_line("\"bird\": \"bird.json\" // .ron"), None);
    // no colon
    assert_eq!(parse_pointer_line("\"bird\" \"bird.ron\""), None);
    // a single quote character
    assert_eq!(parse_pointer_line("bird: \"x.ron"), None);
    // no quotes
    assert_eq!(parse_pointer_line("bird: bird.ron"), None);
}

#[test]
fn pointer_file() {
    let text = "(\n  critters: {\n    \"bird\": \"bird.ron\",\r\n    \"bunny\": \"bunny.ron\",\n  }\n)\n";
    let p = parse_catalog_pointers(text);
    assert_eq!(p, vec![("bird".to_string(), "bird.ron".to_string()), ("bunny".to_string(), "bunny.ron".to_string())]);
    assert!(parse_catalog_pointers("").is_empty());
}

#[test]
fn file_and_base_urls() {
    assert_eq!(critter_file_url(CRITTER_DIR, "bird.ron"), "/critters/bird.ron");
    assert_eq!(critter_file_url(CRITTER_DIR, "/other/bird.ron"), "/other/bird.ron");
    assert_eq!(CATALOG_URL, "/critters/catalog.ron");
    assert_eq!(base_url_for_origin("https://play.app4.dog"), "https://play.app4.dog/");
    assert_eq!(base_url_for_origin("https://play.app4.dog/"), "https://play.app4.dog/");
}

#[test]
fn composed_catalog() {
    let entries = vec![
        ("bird".to_string(), "  (name: \"Bird\")\n".to_string()),
        ("bunny".to_string(), "(name: \"Bunny\")".to_string()),
    ];
    let c = compose_catalog(&entries);
    assert_eq!(
        c,
        "(\n    critters: {\n        \"bird\": (name: \"Bird\"),\n        \"bunny\": (name: \"Bunny\"),\n    }\n)"
    );
    assert_eq!(compose_catalog(&vec![]), "(\n    critters: {\n    }\n)");
}

#[test]
fn sprite_urls() {
    assert_eq!(resolve_sprite_url("https://cdn/x.png", "https://host/"), "https://cdn/x.png");
    assert_eq!(resolve_sprite_url("http://cdn/x.png", ""), "http://cdn/x.png");
    assert_eq!(resolve_sprite_url("//sprites/x.png", ""), "/sprites/x.png");
    assert_eq!(resolve_sprite_url("sprites/x.png", "https://host//"), "https://host/sprites/x.png");
    assert_eq!(resolve_sprite_url("/sprites/x.png", "https://host"), "https://host/sprites/x.png");
}

#[test]
fn sound_urls() {
    assert_eq!(resolve_sound_url("https://cdn/a.ogg"), "https://cdn/a.ogg");
    assert_eq!(resolve_sound_url("/audio/a.ogg"), "audio/a.ogg");
    assert_eq!(resolve_sound_url("audio/a.ogg"), "audio/a.ogg");
}

#[test]
fn declared_sounds_are_extracted() {
    let p = sound_patterns().expect("sound patterns compile");
    let text = "(name: \"Bird\", sounds: (entry: \"audio/in.ogg\", success :  \"audio/yay.ogg\"))";
    let s = critter_sounds(&p, text).unwrap();
    assert_eq!(s.entry, "audio/in.ogg");
    assert_eq!(s.success, "audio/yay.ogg");
    assert!(critter_sounds(&p, "(sounds: (entry: \"only.ogg\"))").is_none());
    assert!(critter_sounds(&p, "(entry: \"\", success: \"x\")").is_none());
}

#[test]
fn sounds_by_critter() {
    let p = sound_patterns().unwrap();
    let entries = vec![
        ("bird".to_string(), "entry: \"b1\" success: \"b2\"".to_string()),
        ("bunny".to_string(), "nothing here".to_string()),
        ("bird".to_string(), "entry: \"c1\" success: \"c2\"".to_string()),
    ];
    let s = collect_sounds(&p, &entries);
    assert_eq!(s.len(), 1);
    let bird = s.get("bird").unwrap();
    assert_eq!(bird.entry, "c1");
    assert_eq!(bird.success, "c2");
    assert!(!s.contains_key("bunny"));
}

#[test]
fn invalid_pattern_is_refused() {
    assert!(CompiledPattern::compile("foo(bar").is_none());
    assert!(CompiledPattern::compile("foo").is_some());
}

#[test]
fn sound_urls_for_critters() {
    let mut sounds = KeyedList::new();
    sounds.insert("bird".to_string(), CritterSoundSet { entry: "/audio/in.ogg".to_string(), success: "https://cdn/yay.ogg".to_string() });
    assert_eq!(entry_sound_url(true, &sounds, "bird").as_deref(), Some("audio/in.ogg"));
    assert_eq!(entry_sound_url(false, &sounds, "bird"), None);
    assert_eq!(entry_sound_url(true, &sounds, "bunny"), None);
    assert_eq!(success_sound_url(&sounds, "bird").as_deref(), Some("https://cdn/yay.ogg"));
    assert_eq!(success_sound_url(&sounds, "bunny"), None);
}

#[test]
fn sheet_summary() {
    let layout = FrameLayout { frame_size: (64, 64), frame_count: 4, layout: LayoutType::Grid { cols: 2, rows: 2 } };
    let s = critter_sheet("bird", "Birdie", CritterSpecies::Bird, "sprites/bird.png", "https://host/", &layout, &vec![0, 3, 7]);
    assert_eq!(s.id, "bird");
    assert_eq!(s.name, "Birdie");
    assert_eq!(s.species, "Bird");
    assert_eq!(s.sprite_url, "https://host/sprites/bird.png");
    assert_eq!((s.frame_width, s.frame_height), (64, 64));
    assert_eq!(s.idle_frames, vec![(0, 64), (64, 0), (64, 0)]);
}
