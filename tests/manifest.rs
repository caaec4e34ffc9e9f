use mcl_rs::manifest::{Latest, Version, VersionsManifest};
use mcl_rs::metadata::ReleaseType;
use mcl_rs::text::eq_ignore_ascii_case;

fn version(id: &str, release_type: ReleaseType) -> Version {
    Version {
        id: id.to_string(),
        release_type,
        url: format!("https://meta/{}.json", id),
        time: 0,
        release_time: 0,
    }
}

fn manifest() -> VersionsManifest {
    VersionsManifest {
        latest: Latest { release: "1.20.1".to_string(), snapshot: "23W31A".to_string() },
        versions: vec![
            version("23w31a", ReleaseType::Snapshot),
            version("1.20.1", ReleaseType::Release),
            version("1.20.1", ReleaseType::OldBeta),
        ],
    }
}

#[test]
fn version_lookup_ignores_ascii_case() {
    let m = manifest();
    assert_eq!(m.get_version("23W31A").unwrap().url, "https://meta/23w31a.json");
    assert!(m.get_version("1.19").is_none());
    assert_eq!(m.get_version("1.20.1").unwrap().release_type, ReleaseType::Release);
}

#[test]
fn latest_release_and_snapshot() {
    let m = manifest();
    assert_eq!(m.latest_release().unwrap().id, "1.20.1");
    assert_eq!(m.latest_snapshot().unwrap().id, "23w31a");
    let empty = VersionsManifest {
        latest: Latest { release: "x".to_string(), snapshot: "y".to_string() },
        versions: vec![],
    };
    assert!(empty.latest_release().is_none());
}

#[test]
fn ascii_case_comparison() {
    assert!(eq_ignore_ascii_case("Ferris", "FERRIS"));
    assert!(!eq_ignore_ascii_case("Ferris", "Ferri"));
    assert!(!eq_ignore_ascii_case("a", "b"));
    assert!(eq_ignore_ascii_case("", ""));
    assert!(!eq_ignore_ascii_case("[", "{"));
}
