use auto_konsole::patch::replace_key_line;
use auto_konsole::profile::create_profile_content;
use auto_konsole::profile::default_profile_body;
use auto_konsole::profile::set_konsolerc_content;
use auto_konsole::theme::ThemeType;

#[test]
fn konsolerc_dark_rewrites_selector_only() {
    let out = set_konsolerc_content("DefaultProfile=Breeze.profile\nOther=1\n", ThemeType::Dark);
    assert_eq!(out, "DefaultProfile=Dark.profile\nOther=1\n");
}

#[test]
fn konsolerc_light_rewrites_selector_only() {
    let out = set_konsolerc_content("A=1\nDefaultProfile=Dark.profile\nB=2", ThemeType::Light);
    assert_eq!(out, "A=1\nDefaultProfile=Light.profile\nB=2");
}

#[test]
fn unrelated_lines_survive_byte_for_byte() {
    let content = "# comment\n\n[Desktop Entry]\nDefaultProfile=Old.profile\nMenuBar=Enabled\n";
    let out = set_konsolerc_content(content, ThemeType::Dark);
    let before: Vec<&str> = content.split('\n').collect();
    let after: Vec<&str> = out.split('\n').collect();
    assert_eq!(before.len(), after.len());
    for (b, a) in before.iter().zip(after.iter()) {
        if b.starts_with("DefaultProfile=") {
            assert_eq!(*a, "DefaultProfile=Dark.profile");
        } else {
            assert_eq!(a, b);
        }
    }
}

#[test]
fn whitespace_around_key_still_matches() {
    let out = replace_key_line("  Color Scheme = Old\nx=1", "ColorScheme=", "New");
    assert_eq!(out, "ColorScheme=New\nx=1");
}

#[test]
fn key_elsewhere_in_line_is_untouched() {
    let content = "remark=ColorScheme=Old\nColorScheme=Old";
    let out = replace_key_line(content, "ColorScheme=", "New");
    assert_eq!(out, "remark=ColorScheme=Old\nColorScheme=New");
}

#[test]
fn absent_key_is_not_appended() {
    let content = "[General]\nName=Dark\n";
    let out = replace_key_line(content, "ColorScheme=", "New");
    assert_eq!(out, content);
}

#[test]
fn empty_content_stays_empty() {
    let out = replace_key_line("", "ColorScheme=", "New");
    assert_eq!(out, "");
}

#[test]
fn trailing_newline_is_kept() {
    let out = replace_key_line("ColorScheme=Old\n", "ColorScheme=", "New");
    assert_eq!(out, "ColorScheme=New\n");
}

#[test]
fn profile_created_when_absent() {
    let out = create_profile_content(None, ThemeType::Light, "BreezeLight");
    assert_eq!(
        out,
        "[Appearance]\nColorScheme=BreezeLight\n\n[General]\nCommand=/bin/bash\nName=Light\nParent=FALLBACK/\n"
    );
    assert!(out.lines().any(|l| l == "Name=Light"));
    assert!(out.lines().any(|l| l == "ColorScheme=BreezeLight"));
}

#[test]
fn profile_created_dark_uses_display_name() {
    let out = create_profile_content(None, ThemeType::Dark, "BreezeDark");
    assert!(out.lines().any(|l| l == "Name=Dark"));
    assert!(out.lines().any(|l| l == "ColorScheme=BreezeDark"));
}

#[test]
fn existing_profile_patched_in_place() {
    let content = "[Appearance]\nColorScheme=Solarized\nWallpaper=none\n\n[General]\nName=Old\n";
    let out = create_profile_content(Some(content), ThemeType::Dark, "Breeze");
    assert_eq!(
        out,
        "[Appearance]\nColorScheme=Breeze\nWallpaper=none\n\n[General]\nName=Dark\n"
    );
}

#[test]
fn konsolerc_second_apply_wins() {
    let content = "DefaultProfile=Breeze.profile\nOther=1\n";
    let once = set_konsolerc_content(content, ThemeType::Dark);
    let twice = set_konsolerc_content(&once, ThemeType::Light);
    assert_eq!(twice, set_konsolerc_content(content, ThemeType::Light));
    assert_eq!(twice, "DefaultProfile=Light.profile\nOther=1\n");
}

#[test]
fn second_apply_wins_without_duplicates() {
    let first = create_profile_content(None, ThemeType::Dark, "SchemeOne");
    let second = create_profile_content(Some(&first), ThemeType::Dark, "SchemeTwo");
    let direct = create_profile_content(None, ThemeType::Dark, "SchemeTwo");
    assert_eq!(second, direct);
    assert!(!second.contains("SchemeOne"));
    let scheme_lines = second.lines().filter(|l| l.starts_with("ColorScheme=")).count();
    assert_eq!(scheme_lines, 1);
    assert!(second.lines().any(|l| l == "ColorScheme=SchemeTwo"));
}

#[test]
fn default_body_embeds_display_name() {
    let body = default_profile_body(ThemeType::Dark);
    assert_eq!(
        body,
        "[Appearance]\nColorScheme=Breeze\n\n[General]\nCommand=/bin/bash\nName=Dark\nParent=FALLBACK/\n"
    );
}
