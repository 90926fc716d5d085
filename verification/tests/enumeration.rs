//! Tests for the font enumeration library, exercising the verified logic
//! on concrete values and the real system services where available.

use open_get_fonts::get_system_fonts;
use open_get_fonts::enumerate_primary;
use open_get_fonts::orchestrate;
use open_get_fonts::collect_source_records;
use open_get_fonts::record_from_handle;
use open_get_fonts::FamilyResolution;
use open_get_fonts::FontHandle;
use open_get_fonts::FontInfo;

fn rec(name: &str, path: &str) -> FontInfo {
    FontInfo { name: name.to_string(), path: path.to_string() }
}

#[test]
fn system_fonts_have_nonempty_names() {
    let fonts = get_system_fonts();
    for f in &fonts {
        assert!(!f.name.is_empty());
    }
}

#[test]
fn consecutive_calls_report_same_names() {
    let mut first: Vec<String> = get_system_fonts().into_iter().map(|f| f.name).collect();
    let mut second: Vec<String> = get_system_fonts().into_iter().map(|f| f.name).collect();
    first.sort();
    second.sort();
    assert_eq!(first, second);
}

#[test]
fn primary_enumeration_names_are_nonempty() {
    if let Some(fonts) = enumerate_primary() {
        for f in &fonts {
            assert!(!f.name.is_empty());
        }
    }
}

#[test]
fn failed_source_yields_exactly_the_fallback() {
    let fallback = vec![rec("DejaVuSans", "/usr/share/fonts/truetype/dejavu/DejaVuSans.ttf")];
    let merged = orchestrate(None, Some(fallback));
    assert_eq!(merged.len(), 1);
    assert_eq!(merged[0].name, "DejaVuSans");
    assert_eq!(merged[0].path, "/usr/share/fonts/truetype/dejavu/DejaVuSans.ttf");
}

#[test]
fn failed_source_and_failed_probe_yield_empty() {
    let merged = orchestrate(None, None);
    assert!(merged.is_empty());
}

#[test]
fn successful_source_ignores_the_fallback() {
    let primary = vec![rec("Arial", "/tmp/arial.ttf")];
    let fallback = vec![rec("DejaVuSans", "/tmp/dejavu.ttf")];
    let merged = orchestrate(Some(primary), Some(fallback));
    assert_eq!(merged.len(), 1);
    assert_eq!(merged[0].name, "Arial");
}

#[test]
fn one_failed_family_does_not_abort_the_rest() {
    let resolutions = vec![
        FamilyResolution {
            family: "Alpha".to_string(),
            handle: Some(FontHandle::FilePath("/fonts/alpha.ttf".to_string())),
        },
        FamilyResolution { family: "Broken".to_string(), handle: None },
        FamilyResolution {
            family: "Gamma".to_string(),
            handle: Some(FontHandle::InMemory(vec![0u8, 1, 2])),
        },
    ];
    let fonts = collect_source_records(&resolutions);
    assert_eq!(fonts.len(), 2);
    assert_eq!(fonts[0].name, "Alpha");
    assert_eq!(fonts[0].path, "/fonts/alpha.ttf");
    assert_eq!(fonts[1].name, "Gamma");
    assert_eq!(fonts[1].path, "");
}

#[test]
fn empty_family_name_is_skipped() {
    let resolutions = vec![
        FamilyResolution {
            family: String::new(),
            handle: Some(FontHandle::FilePath("/fonts/anon.ttf".to_string())),
        },
    ];
    let fonts = collect_source_records(&resolutions);
    assert!(fonts.is_empty());
}

#[test]
fn path_handle_keeps_its_path() {
    let handle = FontHandle::FilePath("/fonts/a.otf".to_string());
    let r = record_from_handle(&"A".to_string(), &handle);
    assert_eq!(r.name, "A");
    assert_eq!(r.path, "/fonts/a.otf");
}

#[test]
fn memory_handle_reports_empty_path() {
    let handle = FontHandle::InMemory(vec![1u8, 2, 3]);
    let r = record_from_handle(&"B".to_string(), &handle);
    assert_eq!(r.name, "B");
    assert_eq!(r.path, "");
}
