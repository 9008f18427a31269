use ssm_monitor::favorites::{favorites_path, favorites_text, parse_favorites};
use ssm_monitor::names::NameSet;
use ssm_monitor::profiles::{current_profile, list_aws_profiles, parse_sections, ProfileFiles};

fn set(names: &[&str]) -> NameSet {
    let mut set = NameSet::new();
    for name in names {
        set.insert(name.to_string());
    }
    set
}

fn files(config: Option<&str>, credentials: Option<&str>) -> Option<ProfileFiles> {
    Some(ProfileFiles {
        config: config.map(|c| c.to_string()),
        credentials: credentials.map(|c| c.to_string()),
    })
}

#[test]
fn bookmarks_have_a_file_under_the_home_directory() {
    let path = |home: &str| favorites_path(Some(home)).map(std::path::PathBuf::from);
    for home in ["/home/ada", "/home/ada/", "/", "", "rel"] {
        let joined = std::path::PathBuf::from(home).join(".config/ssm-monitor/favorites");
        assert_eq!(path(home), Some(joined));
    }
    assert_eq!(
        favorites_path(Some("/home/ada")),
        Some("/home/ada/.config/ssm-monitor/favorites".to_string())
    );
    assert_eq!(favorites_path(None), None);
}

#[test]
fn bookmarks_are_stored_in_order_without_duplicates() {
    assert_eq!(favorites_text(&set(&["i-2", "i-1", "i-2", "a"])), "a\ni-1\ni-2");
    assert_eq!(favorites_text(&set(&[])), "");
}

#[test]
fn stored_bookmarks_are_read_back() {
    let ids = set(&["mi-0", "i-9", "i-1"]);
    let back = parse_favorites(&favorites_text(&ids));
    assert_eq!(back.to_list(), ["i-1", "i-9", "mi-0"]);
}

#[test]
fn blank_lines_and_white_space_are_skipped() {
    let ids = parse_favorites("  i-1 \r\n\n\t\n i-2\u{a0}\ni-1");
    assert_eq!(ids.to_list(), ["i-1", "i-2"]);
    assert!(parse_favorites("").is_empty());
    assert!(parse_favorites(" \n \r\n").is_empty());
}

#[test]
fn all_unicode_white_space_is_taken_off() {
    let white = "\t\u{b}\u{c}\r \u{85}\u{a0}\u{1680}\u{2000}\u{200a}\u{2028}\u{2029}\u{202f}\u{205f}\u{3000}";
    assert_eq!(parse_favorites(&format!("{white}a b{white}")).to_list(), ["a b"]);
    assert_eq!(parse_favorites("\u{200b}a\u{180e}").to_list(), ["\u{200b}a\u{180e}"]);
}

#[test]
fn a_set_keeps_each_name_once() {
    let mut names = set(&["b", "a", "b"]);
    assert_eq!(names.len(), 2);
    assert!(names.contains("a"));
    assert!(!names.contains("c"));
    names.remove("a");
    names.remove("c");
    assert_eq!(names.to_list(), ["b"]);
    names.remove("b");
    assert!(names.is_empty());
}

#[test]
fn profiles_of_both_files_are_listed_in_order() {
    let config = "[default]\nregion = eu-west-1\n[profile zeta]\n[ profile  alpha ]\n[sso-session x]\n";
    let credentials = "[default]\n[beta]\r\n  [alpha]  \nkey = [nope]\n";
    assert_eq!(
        list_aws_profiles(files(Some(config), Some(credentials))),
        ["alpha", "beta", "default", "zeta"]
    );
}

#[test]
fn a_section_of_the_config_file_needs_the_prefix() {
    assert_eq!(list_aws_profiles(files(Some("[prod]\n[profile dev]"), None)), ["dev"]);
    assert_eq!(list_aws_profiles(files(None, Some("[prod]\n[profile dev]"))), ["prod", "profile dev"]);
}

#[test]
fn the_default_profile_stands_in_where_none_is_named() {
    assert_eq!(list_aws_profiles(None), ["default"]);
    assert_eq!(list_aws_profiles(files(None, None)), ["default"]);
    assert_eq!(list_aws_profiles(files(Some("[prod]"), Some("x = 1"))), ["default"]);
}

#[test]
fn brackets_alone_name_an_empty_profile() {
    let mut names = NameSet::new();
    parse_sections("[]\n[\n]\n[profile ]", false, &mut names);
    assert_eq!(names.to_list(), ["", "profile"]);
    let mut names = NameSet::new();
    parse_sections("[]\n[\n]\n[profile ]", true, &mut names);
    assert!(names.is_empty());
}

#[test]
fn the_environment_names_the_profile() {
    assert_eq!(current_profile(Some("prod".to_string())), "prod");
    assert_eq!(current_profile(None), "default");
}
