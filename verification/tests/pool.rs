use image_poster::images::{Image, Images};
use image_poster::paths::{file_name, file_stem, is_image_file, join, sidecar_for, str_ends_with};

fn listing(names: &[&str]) -> Vec<String> {
    names.iter().map(|n| n.to_string()).collect()
}

fn pool() -> Images {
    Images::new("./images".to_string(), "./uploaded".to_string())
}

#[test]
fn accepts_only_image_extensions() {
    assert!(is_image_file("a.png"));
    assert!(is_image_file("b.jpg"));
    assert!(is_image_file("c.jpeg"));
    assert!(!is_image_file("a.PNG"));
    assert!(!is_image_file("b.toml"));
    assert!(!is_image_file("notes.txt"));
    assert!(!is_image_file("png"));
    assert!(!is_image_file(""));
}

#[test]
fn ends_with_is_case_sensitive_and_exact() {
    assert!(str_ends_with("x.png", ".png"));
    assert!(!str_ends_with("x.png", ".jpg"));
    assert!(!str_ends_with("ng", ".png"));
    assert!(str_ends_with("anything", ""));
}

#[test]
fn stem_drops_only_the_last_extension() {
    assert_eq!(file_stem("b.jpg"), "b");
    assert_eq!(file_stem("x.tar.png"), "x.tar");
    assert_eq!(file_stem("noext"), "noext");
    assert_eq!(file_stem(".png"), ".png");
    assert_eq!(file_stem(""), "");
}

#[test]
fn base_name_is_the_part_after_the_last_slash() {
    assert_eq!(file_name("./images/a.png"), "a.png");
    assert_eq!(file_name("a.png"), "a.png");
    assert_eq!(file_name("a/b/c.jpeg"), "c.jpeg");
}

#[test]
fn sidecar_name_swaps_the_extension() {
    assert_eq!(sidecar_for("b.jpg"), "b.toml");
    assert_eq!(sidecar_for("x.tar.png"), "x.tar.toml");
}

#[test]
fn join_inserts_one_separator() {
    assert_eq!(join("./images", "a.png"), "./images/a.png");
}

#[test]
fn empty_listing_selects_nothing() {
    let p = pool();
    assert!(p.get_random_image(&listing(&[])).is_none());
}

#[test]
fn listing_without_images_selects_nothing() {
    let p = pool();
    let entries = listing(&["notes.txt", "b.toml", "archive.zip"]);
    assert!(p.get_random_image(&entries).is_none());
}

#[test]
fn selection_returns_a_member_of_the_pool() {
    let p = pool();
    let entries = listing(&["a.png", "b.jpg", "notes.txt", "c.jpeg"]);
    for _ in 0..50 {
        let img = p.get_random_image(&entries).expect("pool is non-empty");
        let ok = img.path == "./images/a.png" || img.path == "./images/b.jpg" || img.path
            == "./images/c.jpeg";
        assert!(ok, "selected a path outside the pool: {}", img.path);
        assert!(img.credit.is_none());
    }
}

#[test]
fn selection_finds_the_sidecar_by_stem() {
    let p = pool();
    let entries = listing(&["b.jpg", "b.toml"]);
    let img = p.get_random_image(&entries).expect("pool is non-empty");
    assert_eq!(img.path, "./images/b.jpg");
    assert_eq!(img.toml_path.as_deref(), Some("./images/b.toml"));
}

#[test]
fn selection_without_sidecar_leaves_it_unset() {
    let p = pool();
    let entries = listing(&["a.png", "other.toml"]);
    let img = p.get_random_image(&entries).expect("pool is non-empty");
    assert_eq!(img.path, "./images/a.png");
    assert!(img.toml_path.is_none());
}

#[test]
fn archived_candidate_is_never_reselected() {
    let p = pool();
    // The listing after "a.png" was moved to the archive root.
    let entries = listing(&["b.jpg", "notes.txt"]);
    for _ in 0..20 {
        let img = p.get_random_image(&entries).expect("pool is non-empty");
        assert_ne!(img.path, "./images/a.png");
        assert_eq!(img.path, "./images/b.jpg");
    }
}

#[test]
fn move_plan_without_sidecar_has_one_rename() {
    let p = pool();
    let img = Image {
        path: "./images/a.png".to_string(),
        toml_path: None,
        credit: None,
    };
    let moves = p.move_files(&img);
    assert_eq!(moves.len(), 1);
    assert_eq!(moves[0].0, "./images/a.png");
    assert_eq!(moves[0].1, "./uploaded/a.png");
}

#[test]
fn move_plan_with_sidecar_moves_both_files() {
    let p = pool();
    let img = Image {
        path: "./images/b.jpg".to_string(),
        toml_path: Some("./images/b.toml".to_string()),
        credit: Some("artist1".to_string()),
    };
    let moves = p.move_files(&img);
    assert_eq!(moves.len(), 2);
    assert_eq!(moves[0].0, "./images/b.jpg");
    assert_eq!(moves[0].1, "./uploaded/b.jpg");
    assert_eq!(moves[1].0, "./images/b.toml");
    assert_eq!(moves[1].1, "./uploaded/b.toml");
}

#[test]
fn default_pool_uses_the_fixed_roots() {
    let p = Images::default();
    assert_eq!(p.source_root().as_str(), "./images");
    assert_eq!(p.archive_root().as_str(), "./uploaded");
}
