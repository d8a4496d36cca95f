use cmus_notify::search;
use cmus_notify::{DirEntryInfo, NamePattern, SearchStep, UpwardSearch};

fn file(dir: &str, name: &str) -> DirEntryInfo {
    DirEntryInfo {
        name: Some(name.to_string()),
        is_file: true,
        path: Some(format!("{}/{}", dir, name)),
    }
}

fn subdir(dir: &str, name: &str) -> DirEntryInfo {
    DirEntryInfo {
        name: Some(name.to_string()),
        is_file: false,
        path: Some(format!("{}/{}", dir, name)),
    }
}

const ALBUM: &str = "tests/samples/Owl City/Cinematic";
const COVERS: &str = "tests/samples/Owl City/Cinematic/cover";

fn covers_listing() -> Vec<DirEntryInfo> {
    vec![file(COVERS, "cover.jpg"), file(COVERS, "cover.png")]
}

fn album_listing() -> Vec<DirEntryInfo> {
    vec![
        subdir(ALBUM, "cover"),
        file(ALBUM, "08 - Always.lrc"),
        file(ALBUM, "08 - Always.flac"),
    ]
}

fn run(start: &str, max_hops: u8, pattern: &str, listing_of: &dyn Fn(&str) -> Vec<DirEntryInfo>) -> (Option<String>, usize) {
    let pattern = NamePattern::new(pattern).unwrap();
    let mut s = UpwardSearch::new(start, max_hops);
    let mut inspected: usize = 0;
    loop {
        let listing = listing_of(s.current_dir());
        inspected += 1;
        match s.step(&listing, &pattern) {
            SearchStep::Found(p) => return (Some(p), inspected),
            SearchStep::Exhausted => return (None, inspected),
            SearchStep::Climbed => {}
        }
    }
}

fn sample_tree(dir: &str) -> Vec<DirEntryInfo> {
    if dir == COVERS {
        covers_listing()
    } else if dir == ALBUM {
        album_listing()
    } else {
        Vec::new()
    }
}

#[test]
fn search_up_finds_cover_in_start_directory() {
    let (found, inspected) = run(COVERS, 1, r"cover|.\.jpg|.\.png", &sample_tree);
    assert_eq!(found.as_deref(), Some("tests/samples/Owl City/Cinematic/cover/cover.jpg"));
    assert_eq!(inspected, 1);
    let (found, _) = run(COVERS, 1, r".\.jpg|.\.png", &sample_tree);
    assert_eq!(found.as_deref(), Some("tests/samples/Owl City/Cinematic/cover/cover.jpg"));
    let (found, _) = run(COVERS, 1, r".\.png", &sample_tree);
    assert_eq!(found.as_deref(), Some("tests/samples/Owl City/Cinematic/cover/cover.png"));
}

#[test]
fn search_up_climbs_one_level_for_lyrics() {
    let (found, inspected) = run(COVERS, 1, r".\.lrc", &sample_tree);
    assert_eq!(found.as_deref(), Some("tests/samples/Owl City/Cinematic/08 - Always.lrc"));
    assert_eq!(inspected, 2);
}

#[test]
fn search_up_for_absent_file_gives_nothing() {
    let (found, inspected) = run(COVERS, 3, r".\.mp3", &sample_tree);
    assert_eq!(found, None);
    assert_eq!(inspected, 4);
}

#[test]
fn zero_hops_inspects_only_the_start() {
    let (found, inspected) = run(COVERS, 0, r".\.lrc", &sample_tree);
    assert_eq!(found, None);
    assert_eq!(inspected, 1);
}

#[test]
fn search_stops_at_the_root() {
    let (found, inspected) = run("/", 5, r".\.lrc", &|_| Vec::new());
    assert_eq!(found, None);
    assert_eq!(inspected, 1);
}

#[test]
fn climbing_moves_to_parent_and_spends_a_hop() {
    let pattern = NamePattern::new(r"\.png$").unwrap();
    let mut s = UpwardSearch::new("/music/artist/album", 2);
    assert!(matches!(s.step(&Vec::new(), &pattern), SearchStep::Climbed));
    assert_eq!(s.current_dir(), "/music/artist");
    assert!(matches!(s.step(&Vec::new(), &pattern), SearchStep::Climbed));
    assert_eq!(s.current_dir(), "/music");
    assert!(matches!(s.step(&Vec::new(), &pattern), SearchStep::Exhausted));
    assert_eq!(s.current_dir(), "/music");
}

#[test]
fn search_takes_first_match_in_listing_order() {
    let pattern = NamePattern::new(r"\.(jpg|png)$").unwrap();
    let listing = vec![file("d", "b.png"), file("d", "a.jpg")];
    assert_eq!(search(&listing, &pattern).as_deref(), Some("d/b.png"));
}

#[test]
fn search_skips_directories_and_unreadable_entries() {
    let pattern = NamePattern::new(r"\.jpg$").unwrap();
    let listing = vec![
        subdir("d", "art.jpg"),
        DirEntryInfo { name: None, is_file: true, path: Some("d/x.jpg".to_string()) },
        DirEntryInfo { name: Some("y.jpg".to_string()), is_file: true, path: None },
        file("d", "z.jpg"),
    ];
    assert_eq!(search(&listing, &pattern).as_deref(), Some("d/z.jpg"));
}

#[test]
fn search_of_empty_listing_gives_nothing() {
    let pattern = NamePattern::new(r".*").unwrap();
    assert_eq!(search(&Vec::new(), &pattern), None);
}

#[test]
fn name_pattern_matches_by_regex() {
    let pattern = NamePattern::new(r"^cover\.(jpg|png)$").unwrap();
    assert!(pattern.matches("cover.jpg"));
    assert!(!pattern.matches("cover.gif"));
    assert!(!pattern.matches("xcover.jpg"));
}

#[test]
fn invalid_pattern_is_refused() {
    assert!(NamePattern::new(r"(unclosed").is_none());
}
