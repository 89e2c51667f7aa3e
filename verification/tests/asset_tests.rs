use logo_embedder::asset::asset_name;
use logo_embedder::asset::asset_path;
use logo_embedder::asset::fresh_asset_path;
use logo_embedder::asset::TAG_LIMIT;

#[test]
fn asset_names() {
    assert_eq!(asset_name(0), "cfclogo-0.png");
    assert_eq!(asset_name(7), "cfclogo-7.png");
    assert_eq!(asset_name(10), "cfclogo-10.png");
    assert_eq!(asset_name(999), "cfclogo-999.png");
    assert_eq!(asset_name(1203405), "cfclogo-1203405.png");
    assert_eq!(asset_name(u32::MAX), "cfclogo-4294967295.png");
}

#[test]
fn asset_names_match_decimal_formatting() {
    for tag in 0..1000u32 {
        assert_eq!(asset_name(tag), format!("cfclogo-{}.png", tag));
    }
}

#[test]
fn asset_paths() {
    assert_eq!(asset_path("/tmp", 42), "/tmp/cfclogo-42.png");
    assert_eq!(asset_path("/tmp/", 42), "/tmp/cfclogo-42.png");
    assert_eq!(asset_path("", 42), "cfclogo-42.png");
}

#[test]
fn fresh_paths_carry_a_tag_below_the_limit() {
    assert_eq!(TAG_LIMIT, 1000);
    for _ in 0..200 {
        let path = fresh_asset_path("/tmp");
        let rest = path.strip_prefix("/tmp/cfclogo-").unwrap();
        let digits = rest.strip_suffix(".png").unwrap();
        let tag: u32 = digits.parse().unwrap();
        assert!(tag < TAG_LIMIT);
        assert_eq!(path, asset_path("/tmp", tag));
    }
}

#[test]
fn fresh_paths_differ() {
    let mut seen: Vec<String> = Vec::new();
    for _ in 0..64 {
        let path = fresh_asset_path("/tmp");
        if !seen.contains(&path) {
            seen.push(path);
        }
    }
    assert!(seen.len() > 1);
}
