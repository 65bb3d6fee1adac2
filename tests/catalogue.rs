use playbyte::cores::{
    core_file_candidates, core_id_from_path, core_id_matches_preference, core_path_candidates,
    library_core_id, select_default_core,
};
use playbyte::feed::{FeedError, LocalByteStore};
use playbyte::hash::{hash_rom, hash_rom_without_snes_header};
use playbyte::library::{is_rom_file, system_from_rom_path, title_from_rom_path, RomLibrary};
use playbyte::navigation::{
    build_feed_items, FeedController, FeedItem, RomEntry, RomFallback, SessionAutosaveKey, SystemCores,
};
use playbyte::romdb::{
    build_thumbnail_url, cover_path, extract_quoted_value, extract_sha1, normalize_base_title,
    normalize_title, parse_dat, percent_encode_path_segment, resolve_official_title,
    sanitize_thumbnail_title, strip_bracketed_segments, system_dat_url, system_id,
    system_thumbnail_folder, RomDatabase,
};
use playbyte::types::{ByteMetadata, System};

fn chars(s: &str) -> Vec<char> {
    s.chars().collect()
}

fn text(v: Option<Vec<char>>) -> Option<String> {
    v.map(|c| c.into_iter().collect())
}

fn byte(id: &str, system: System, core: &str, rom: &str) -> ByteMetadata {
    ByteMetadata {
        byte_id: id.to_string(),
        system,
        core_id: core.to_string(),
        core_semver: "1.0".to_string(),
        rom_sha1: rom.to_string(),
        region: None,
        title: String::new(),
        description: String::new(),
        tags: vec!["tag".to_string()],
        author: "me".to_string(),
        created_at: "2024-01-01T00:00:00Z".to_string(),
        thumbnail_path: "thumb.png".to_string(),
        state_path: "state.zst".to_string(),
    }
}

fn fallback(sha: &str) -> RomFallback {
    RomFallback {
        rom_sha1: sha.to_string(),
        rom_path: format!("/roms/{sha}.nes"),
        system: System::Nes,
        title: sha.to_string(),
        official_title: None,
        core_id: "mesen".to_string(),
        core_path: None,
    }
}

#[test]
fn system_names_and_locations() {
    assert_eq!(system_id(System::Nes), "nes");
    assert_eq!(system_id(System::Snes), "snes");
    assert_eq!(system_id(System::Gbc), "gbc");
    assert_eq!(system_id(System::Gba), "gba");
    assert_eq!(system_thumbnail_folder(System::Gbc), "Nintendo - Game Boy Color");
    assert!(system_dat_url(System::Snes).ends_with("Super%20Nintendo%20Entertainment%20System.dat"));
}

#[test]
fn thumbnail_titles_replace_reserved_characters() {
    assert_eq!(sanitize_thumbnail_title("Mario & Luigi: A/B?"), "Mario _ Luigi_ A_B_");
    assert_eq!(sanitize_thumbnail_title("plain"), "plain");
}

#[test]
fn path_segments_are_percent_encoded() {
    assert_eq!(percent_encode_path_segment("a b-c_d.e~f"), "a%20b-c_d.e~f");
    assert_eq!(percent_encode_path_segment("é"), "%C3%A9");
}

#[test]
fn thumbnail_url_is_built_from_folder_and_title() {
    assert_eq!(
        build_thumbnail_url(System::Nes, "Zelda: Link"),
        "https://thumbnails.libretro.com/Nintendo%20-%20Nintendo%20Entertainment%20System/Named_Boxarts/Zelda_%20Link.png"
    );
}

#[test]
fn cover_path_joins_cache_system_and_file() {
    assert_eq!(cover_path("/cache", System::Snes, "A/B"), "/cache/snes/A_B.png");
    assert_eq!(cover_path("/cache/", System::Gba, "X"), "/cache/gba/X.png");
}

#[test]
fn titles_normalise_for_comparison() {
    assert_eq!(normalize_title("  Super Mario Bros. (USA) "), "super mario bros usa");
    assert_eq!(normalize_title("---"), "");
    assert_eq!(strip_bracketed_segments("Zelda (USA) [!] (Rev 1)"), "Zelda   ");
    assert_eq!(strip_bracketed_segments("a) b"), "a b");
    assert_eq!(normalize_base_title("Zelda (USA) [!]"), "zelda");
}

#[test]
fn quoted_values_and_checksums_are_extracted() {
    assert_eq!(text(extract_quoted_value(&chars("name \"Tetris (World)\""))), Some("Tetris (World)".to_string()));
    assert_eq!(text(extract_quoted_value(&chars("name \"open"))), None);
    let line = chars("rom ( name \"x.nes\" size 1 crc 00 sha1 ABCDEF0123456789ABCDEF0123456789ABCDEF01 )");
    assert_eq!(text(extract_sha1(&line)), Some("abcdef0123456789abcdef0123456789abcdef01".to_string()));
    assert_eq!(text(extract_sha1(&chars("rom ( sha1 1234 )"))), None);
    assert_eq!(text(extract_sha1(&chars("rom ( crc 00 )"))), None);
}

fn sample_dat() -> Vec<String> {
    [
        "clrmamepro ( name \"x\" )",
        "game (",
        "\tname \"Tetris (World)\"",
        "\trom ( name \"t.gb\" sha1 1111111111111111111111111111111111111111 )",
        ")",
        "game (",
        "\tdescription \"Zelda (USA)\"",
        "\trom ( name \"z.nes\" sha1 2222222222222222222222222222222222222222 )",
        "\trom ( name \"z2.nes\" sha1 3333333333333333333333333333333333333333 )",
        ")",
        "game (",
        "\tname \"Zelda (Europe)\"",
        "\trom ( name \"z.nes\" sha1 4444444444444444444444444444444444444444 )",
        ")",
        "\trom ( name \"outside\" sha1 5555555555555555555555555555555555555555 )",
    ]
    .iter()
    .map(|s| s.to_string())
    .collect()
}

#[test]
fn dat_files_map_checksums_to_titles() {
    let db = parse_dat(&sample_dat());
    assert_eq!(db.titles(), &["Tetris (World)".to_string(), "Zelda (USA)".to_string(), "Zelda (Europe)".to_string()]);
    assert_eq!(db.title_for_sha1("1111111111111111111111111111111111111111"), Some("Tetris (World)"));
    assert_eq!(db.title_for_sha1("3333333333333333333333333333333333333333"), Some("Zelda (USA)"));
    assert_eq!(db.title_for_sha1("5555555555555555555555555555555555555555"), None);
}

#[test]
fn best_match_prefers_exact_then_region() {
    let db = parse_dat(&sample_dat());
    assert_eq!(db.best_match("tetris world"), Some("Tetris (World)".to_string()));
    assert_eq!(db.best_match("Zelda"), Some("Zelda (USA)".to_string()));
    assert_eq!(db.best_match("Tetris"), Some("Tetris (World)".to_string()));
    assert_eq!(db.best_match("Metroid"), None);
    assert_eq!(db.best_match("!!!"), None);
    let empty = RomDatabase::from_parts(Vec::new(), Vec::new());
    assert_eq!(empty.best_match("Zelda"), None);
}

#[test]
fn official_title_resolution_order() {
    let db = parse_dat(&sample_dat());
    let sha = "1111111111111111111111111111111111111111";
    assert_eq!(
        resolve_official_title(Some("Mine"), Some(&db), sha, None, System::Gbc, "x", "/r/x.gb"),
        Some("Mine".to_string())
    );
    assert_eq!(resolve_official_title(None, None, sha, None, System::Gbc, "x", "/r/x.gb"), None);
    assert_eq!(
        resolve_official_title(None, Some(&db), sha, None, System::Gbc, "x", "/r/x.gb"),
        Some("Tetris (World)".to_string())
    );
    let alt = "4444444444444444444444444444444444444444";
    assert_eq!(
        resolve_official_title(None, Some(&db), "ff", Some(alt), System::Snes, "q", "/r/q.sfc"),
        Some("Zelda (Europe)".to_string())
    );
    assert_eq!(resolve_official_title(None, Some(&db), "ff", Some(alt), System::Nes, "q", "/r/q.nes"), None);
    assert_eq!(
        resolve_official_title(None, Some(&db), "ff", None, System::Nes, "My Zelda Hack", "/r/zelda.nes"),
        Some("Zelda (USA)".to_string())
    );
}

#[test]
fn rom_files_are_recognised_by_extension() {
    assert!(is_rom_file("/roms/game.nes"));
    assert!(is_rom_file("/roms/GAME.SFC"));
    assert!(is_rom_file("game.smc"));
    assert!(!is_rom_file("/roms/game.gba"));
    assert!(!is_rom_file("/roms/.nes"));
    assert!(!is_rom_file("/roms/nes"));
    assert_eq!(system_from_rom_path("/x/a.GBA"), System::Gba);
    assert_eq!(system_from_rom_path("/x/a.gb"), System::Gbc);
    assert_eq!(system_from_rom_path("/x/a.smc"), System::Snes);
    assert_eq!(system_from_rom_path("/x/a.zip"), System::Nes);
    assert_eq!(title_from_rom_path("/roms/Super_Mario_Bros.nes"), "Super Mario Bros");
    assert_eq!(title_from_rom_path("/"), "Unknown ROM");
}

#[test]
fn rom_library_indexes_by_checksum() {
    let mut lib = RomLibrary::new();
    lib.add_root("/roms");
    assert_eq!(lib.roots(), &["/roms".to_string()]);
    assert_eq!(lib.find_by_hash("aa"), None);
    lib.record("aa".to_string(), "/roms/a.nes".to_string());
    lib.record("bb".to_string(), "/roms/b.nes".to_string());
    lib.record("aa".to_string(), "/roms/a2.nes".to_string());
    assert_eq!(lib.find_by_hash("aa"), Some("/roms/a2.nes".to_string()));
    assert_eq!(lib.find_by_hash("bb"), Some("/roms/b.nes".to_string()));
}

#[test]
fn rom_hashes_are_sha1_hex() {
    assert_eq!(hash_rom(b"abc"), "a9993e364706816aba3e25717850c26c9cd0d89d");
    assert_eq!(hash_rom_without_snes_header(&[0u8; 1024]), None);
    let mut image = vec![0xffu8; 512];
    image.extend_from_slice(b"abc");
    image.resize(512 + 1024, 0);
    let expected = hash_rom(&image[512..]);
    assert_eq!(hash_rom_without_snes_header(&image), Some(expected));
    assert_ne!(hash_rom_without_snes_header(&image), Some(hash_rom(&image)));
}

#[test]
fn byte_store_paths_and_index() {
    let mut store = LocalByteStore::new("/data");
    assert_eq!(store.bytes_root(), "/data/bytes");
    assert_eq!(store.metadata_path("b1"), "/data/bytes/b1/byte.json");
    let m = byte("b1", System::Nes, "mesen", "aa");
    assert_eq!(store.state_file(&m), "/data/bytes/b1/state.zst");
    assert_eq!(store.thumbnail_file(&m), "/data/bytes/b1/thumb.png");
    assert_eq!(store.get("b1").unwrap_err(), FeedError::MissingMetadata("b1".to_string()));
    store.remember(m);
    store.remember(byte("b2", System::Snes, "bsnes", "bb"));
    assert_eq!(store.get("b2").unwrap().core_id, "bsnes");
    let listed = store.list();
    assert_eq!(listed.len(), 2);
    assert_eq!(listed[0].byte_id, "b1");
    assert_eq!(listed[0].tags, vec!["tag".to_string()]);
}

#[test]
fn byte_store_round_trips_compressed_states() {
    let mut store = LocalByteStore::new("/data");
    let state: Vec<u8> = (0..200u8).collect();
    let compressed = LocalByteStore::encode_state(&state).expect("encodes");
    assert_ne!(compressed, state);
    assert_eq!(store.cached_state("b1"), None);
    assert_eq!(store.decode_state("b1", &compressed).expect("decodes"), state);
    assert_eq!(store.cached_state("b1"), Some(state));
    assert!(matches!(store.decode_state("b2", b"not zstd"), Err(FeedError::Io(_))));
    assert_eq!(store.cached_state("b2"), None);
    store.keep_thumbnail("b1", vec![1, 2]);
    assert_eq!(store.cached_thumbnail("b1"), Some(vec![1, 2]));
}

#[test]
fn core_ids_come_from_library_names() {
    assert_eq!(core_id_from_path("/cores/mesen_libretro.so"), Some("mesen".to_string()));
    assert_eq!(core_id_from_path("/cores/snes9x.dylib"), Some("snes9x".to_string()));
    assert_eq!(core_id_from_path("/cores/_libretro.so"), Some("_libretro".to_string()));
    assert_eq!(core_id_from_path("/"), None);
    assert!(core_id_matches_preference("Mesen", "mesen"));
    assert!(core_id_matches_preference("mgba_fast", "mgba"));
    assert!(!core_id_matches_preference("bsnes", "nes"));
    assert!(core_id_matches_preference("nes", "NES"));
}

#[test]
fn default_core_follows_votes_then_preferences() {
    let available = vec!["fceux".to_string(), "nestopia".to_string(), "snes9x".to_string()];
    let bytes = vec![
        byte("a", System::Nes, "fceux", "1"),
        byte("b", System::Nes, "nestopia", "2"),
        byte("c", System::Nes, "nestopia", "3"),
        byte("d", System::Snes, "bsnes", "4"),
    ];
    assert_eq!(select_default_core(System::Nes, &available, &bytes, &[true, true, true, true]), Some("nestopia".to_string()));
    assert_eq!(select_default_core(System::Nes, &available, &bytes, &[true, false, false, true]), Some("fceux".to_string()));
    assert_eq!(select_default_core(System::Nes, &available, &bytes, &[false; 4]), Some("nestopia".to_string()));
    assert_eq!(select_default_core(System::Snes, &available, &bytes, &[false; 4]), Some("snes9x".to_string()));
    assert_eq!(select_default_core(System::Gba, &available, &bytes, &[true; 4]), None);
}

#[test]
fn core_files_are_looked_up_in_order() {
    assert_eq!(
        core_file_candidates("mesen", "so"),
        vec!["mesen".to_string(), "mesen_libretro.so".to_string(), "mesen.so".to_string()]
    );
    assert_eq!(
        core_path_candidates("/cores", "mesen", "dll"),
        vec!["/cores/mesen".to_string(), "/cores/mesen_libretro.dll".to_string(), "/cores/mesen.dll".to_string()]
    );
}

#[test]
fn feed_navigation_stays_in_bounds() {
    let items = vec![
        FeedItem::Byte(byte("a", System::Nes, "mesen", "1")),
        FeedItem::RomFallback(fallback("2")),
        FeedItem::Byte(byte("c", System::Nes, "mesen", "3")),
    ];
    let mut feed = FeedController::new(items);
    assert!(!feed.is_empty());
    feed.prev();
    assert_eq!(feed.current_index(), 0);
    assert_eq!(feed.prefetch_ids(), vec!["a".to_string()]);
    feed.next();
    assert_eq!(feed.prefetch_ids(), vec!["a".to_string(), "c".to_string()]);
    feed.next();
    feed.next();
    assert_eq!(feed.current_index(), 2);
    feed.select(7);
    assert_eq!(feed.current_index(), 2);
    feed.select(1);
    assert_eq!(feed.current().map(|i| i.title().to_string()), Some("2".to_string()));
    assert!(feed.covers_rom("3"));
    assert!(!feed.covers_rom("9"));
}

#[test]
fn adding_a_byte_replaces_its_fallback() {
    let mut feed = FeedController::new(vec![FeedItem::RomFallback(fallback("1")), FeedItem::RomFallback(fallback("2"))]);
    feed.add_byte(byte("n", System::Nes, "mesen", "1"));
    assert_eq!(feed.items().len(), 2);
    assert_eq!(feed.current_index(), 1);
    assert_eq!(feed.current().unwrap().session_autosave_key(), SessionAutosaveKey::Byte("n".to_string()));
    assert_eq!(feed.items()[0].session_autosave_key(), SessionAutosaveKey::Rom("2".to_string()));
    let mut empty = FeedController::new(Vec::new());
    assert_eq!(empty.prefetch_ids(), Vec::<String>::new());
    empty.push_fallback(fallback("5"));
    assert_eq!(empty.current_index(), 0);
    assert_eq!(empty.current().unwrap().system(), System::Nes);
}

#[test]
fn library_files_give_core_ids() {
    assert_eq!(library_core_id("/cores/mesen_libretro.SO", "so"), Some("mesen".to_string()));
    assert_eq!(library_core_id("/cores/mesen_libretro.dll", "so"), None);
    assert_eq!(library_core_id("/cores/readme", "so"), None);
}

fn entry(sha: &str, path: &str, title: Option<&str>) -> RomEntry {
    RomEntry {
        rom_sha1: sha.to_string(),
        rom_path: path.to_string(),
        title: title.map(|t| t.to_string()),
        official_title: Some(format!("Official {sha}")),
    }
}

#[test]
fn feed_lists_bytes_then_uncovered_roms() {
    let bytes = vec![byte("b1", System::Nes, "mesen", "aa")];
    let roms = vec![
        entry("aa", "/roms/covered.nes", None),
        entry("bb", "/roms/Some_Game.nes", None),
        entry("bb", "/roms/duplicate.nes", None),
        entry("cc", "/roms/nocore.gba", None),
        entry("dd", "/roms/snes.sfc", Some("Named")),
    ];
    let cores = SystemCores {
        nes: Some("mesen".to_string()),
        snes: Some("snes9x".to_string()),
        gbc: None,
        gba: None,
    };
    let items = build_feed_items(bytes, &roms, &cores);
    assert_eq!(items.len(), 3);
    assert!(matches!(&items[0], FeedItem::Byte(b) if b.byte_id == "b1"));
    match &items[1] {
        FeedItem::RomFallback(f) => {
            assert_eq!(f.rom_sha1, "bb");
            assert_eq!(f.rom_path, "/roms/Some_Game.nes");
            assert_eq!(f.title, "Some Game");
            assert_eq!(f.core_id, "mesen");
            assert_eq!(f.official_title.as_deref(), Some("Official bb"));
            assert!(f.core_path.is_none());
        }
        other => panic!("unexpected item {other:?}"),
    }
    match &items[2] {
        FeedItem::RomFallback(f) => {
            assert_eq!(f.title, "Named");
            assert_eq!(f.system, System::Snes);
            assert_eq!(f.core_id, "snes9x");
        }
        other => panic!("unexpected item {other:?}"),
    }
}
