//! Tests for the three platform probes' verified logic.

use open_get_fonts::linux::fontconfig_records;
use open_get_fonts::linux::get_fontconfig_fonts;
use open_get_fonts::linux::stem_of_path;
use open_get_fonts::macos::get_core_text_fonts;
use open_get_fonts::macos::FontDescriptorInfo;
use open_get_fonts::windows::get_directwrite_fonts;
use open_get_fonts::windows::synthesize_path;

#[test]
fn stem_strips_directories_and_extension() {
    assert_eq!(stem_of_path("/usr/share/fonts/truetype/dejavu/DejaVuSans.ttf"), "DejaVuSans");
    assert_eq!(stem_of_path("LiberationSans-Regular.ttf"), "LiberationSans-Regular");
    assert_eq!(stem_of_path("dir/plain"), "plain");
    assert_eq!(stem_of_path("noext"), "noext");
    assert_eq!(stem_of_path("a.b.c"), "a.b");
    assert_eq!(stem_of_path(""), "");
}

#[test]
fn stem_keeps_a_leading_dot_only_name_whole() {
    assert_eq!(stem_of_path(".fonts"), ".fonts");
    assert_eq!(stem_of_path("dir/.fonts"), ".fonts");
    assert_eq!(stem_of_path(".a.b"), ".a");
    assert_eq!(stem_of_path("dir/"), "");
}

#[test]
fn empty_query_and_no_known_paths_give_empty_list() {
    let fonts = fontconfig_records(&vec![], false, false, false);
    assert!(fonts.is_empty());
}

#[test]
fn present_dejavu_gives_its_stem_record() {
    let fonts = fontconfig_records(&vec![], true, false, false);
    assert_eq!(fonts.len(), 1);
    assert_eq!(fonts[0].name, "DejaVuSans");
    assert_eq!(fonts[0].path, "/usr/share/fonts/truetype/dejavu/DejaVuSans.ttf");
}

#[test]
fn all_known_paths_present_give_three_records() {
    let fonts = fontconfig_records(&vec![], true, true, true);
    assert_eq!(fonts.len(), 3);
    assert_eq!(fonts[0].name, "DejaVuSans");
    assert_eq!(fonts[1].name, "LiberationSans-Regular");
    assert_eq!(fonts[2].name, "Arial");
    assert_eq!(fonts[2].path, "/usr/share/fonts/TTF/Arial.ttf");
}

#[test]
fn query_entries_need_both_family_and_file() {
    let entries = vec![
        (Some("Alpha".to_string()), Some("/fonts/alpha.ttf".to_string())),
        (Some("NoFile".to_string()), None),
        (None, Some("/fonts/orphan.ttf".to_string())),
        (Some(String::new()), Some("/fonts/unnamed.ttf".to_string())),
        (Some("Beta".to_string()), Some("/fonts/beta.ttf".to_string())),
    ];
    let fonts = fontconfig_records(&entries, true, true, true);
    assert_eq!(fonts.len(), 2);
    assert_eq!(fonts[0].name, "Alpha");
    assert_eq!(fonts[0].path, "/fonts/alpha.ttf");
    assert_eq!(fonts[1].name, "Beta");
    assert_eq!(fonts[1].path, "/fonts/beta.ttf");
}

#[test]
fn nonempty_query_suppresses_the_fallback() {
    let entries = vec![(Some("Alpha".to_string()), Some("/fonts/alpha.ttf".to_string()))];
    let fonts = fontconfig_records(&entries, true, true, true);
    assert_eq!(fonts.len(), 1);
    assert_eq!(fonts[0].name, "Alpha");
}

#[test]
fn linux_probe_reports_nonempty_names() {
    if let Some(fonts) = get_fontconfig_fonts() {
        for f in &fonts {
            assert!(!f.name.is_empty());
        }
    }
}

#[test]
fn descriptor_without_url_contributes_no_record() {
    let descriptors = vec![FontDescriptorInfo { family: "Ghost".to_string(), path: None }];
    let fonts = get_core_text_fonts(Some(descriptors)).unwrap();
    assert!(fonts.is_empty());
}

#[test]
fn descriptor_with_empty_path_is_skipped() {
    let descriptors = vec![
        FontDescriptorInfo { family: "Ghost".to_string(), path: Some(String::new()) },
    ];
    let fonts = get_core_text_fonts(Some(descriptors)).unwrap();
    assert!(fonts.is_empty());
}

#[test]
fn descriptor_with_url_contributes_one_record() {
    let descriptors = vec![
        FontDescriptorInfo { family: "Ghost".to_string(), path: None },
        FontDescriptorInfo {
            family: "Helvetica".to_string(),
            path: Some("/Library/Fonts/Helvetica.ttc".to_string()),
        },
    ];
    let fonts = get_core_text_fonts(Some(descriptors)).unwrap();
    assert_eq!(fonts.len(), 1);
    assert_eq!(fonts[0].name, "Helvetica");
    assert_eq!(fonts[0].path, "/Library/Fonts/Helvetica.ttc");
}

#[test]
fn missing_collection_means_probe_unavailable() {
    assert!(get_core_text_fonts(None).is_none());
    assert!(get_directwrite_fonts(None).is_none());
}

#[test]
fn arial_gets_the_synthesized_path_verbatim() {
    let fonts = get_directwrite_fonts(Some(vec![Some("Arial".to_string())])).unwrap();
    assert_eq!(fonts.len(), 1);
    assert_eq!(fonts[0].name, "Arial");
    assert_eq!(fonts[0].path, "C:\\Windows\\Fonts\\Arial.ttf");
}

#[test]
fn synthesized_path_concatenates_verbatim() {
    assert_eq!(synthesize_path(&"Segoe UI".to_string()), "C:\\Windows\\Fonts\\Segoe UI.ttf");
}

#[test]
fn undecodable_family_names_are_skipped() {
    let names = vec![
        None,
        Some("Arial".to_string()),
        Some(String::new()),
        Some("Consolas".to_string()),
    ];
    let fonts = get_directwrite_fonts(Some(names)).unwrap();
    assert_eq!(fonts.len(), 2);
    assert_eq!(fonts[0].name, "Arial");
    assert_eq!(fonts[1].name, "Consolas");
    assert_eq!(fonts[1].path, "C:\\Windows\\Fonts\\Consolas.ttf");
}
