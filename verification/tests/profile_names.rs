use aethos_core::profile::{
    base_data_dir, blank, identity_file_path, identity_file_path_for, infer_device_name,
    join_path, sanitize_profile, session_cache_file_path, session_cache_file_path_for,
    StorageEnv, APP_DIR_NAME, DEFAULT_DEVICE_NAME, DEFAULT_PROFILE,
};

#[test]
fn blank_profile_is_the_default_profile() {
    assert_eq!(sanitize_profile(""), "default");
    assert_eq!(sanitize_profile("   "), "default");
    assert_eq!(sanitize_profile("\t\n "), "default");
    assert_eq!(sanitize_profile("\u{2003}\u{00a0}"), DEFAULT_PROFILE);
}

#[test]
fn default_profile_name_maps_to_itself() {
    assert_eq!(sanitize_profile("default"), "default");
    assert_eq!(sanitize_profile(" default "), "default");
}

#[test]
fn sanitize_trims_and_keeps_safe_characters() {
    assert_eq!(sanitize_profile("  alpha  "), "alpha");
    assert_eq!(sanitize_profile("Team-Blue_01"), "Team-Blue_01");
    assert_eq!(sanitize_profile("azAZ09-_"), "azAZ09-_");
}

#[test]
fn sanitize_replaces_every_other_character() {
    assert_eq!(sanitize_profile("a/b\\c:d.e"), "a_b_c_d_e");
    assert_eq!(sanitize_profile("t\u{eb}am"), "t_am");
    assert_eq!(sanitize_profile("../etc"), "___etc");
    assert_eq!(sanitize_profile("a  b"), "a__b");
    assert_eq!(sanitize_profile("`{@["), "____");
}

#[test]
fn sanitize_keeps_the_trimmed_length() {
    let raw = "  one two\tthree  ";
    assert_eq!(sanitize_profile(raw).chars().count(), raw.trim().chars().count());
}

#[test]
fn sanitize_agrees_with_std_trim() {
    for raw in ["\u{0085}x\u{3000}", "\u{1680}y", "z\u{2028}\u{2029}", "\u{200b}w"] {
        let expected: String = raw
            .trim()
            .chars()
            .map(|c| if c.is_ascii_alphanumeric() || c == '-' || c == '_' { c } else { '_' })
            .collect();
        assert_eq!(sanitize_profile(raw), expected);
    }
}

#[test]
fn profiles_with_one_safe_form_share_their_files() {
    assert_eq!(
        identity_file_path_for("/data", "team blue"),
        identity_file_path_for("/data", " team_blue ")
    );
    assert_eq!(
        session_cache_file_path_for("/data", "team blue"),
        session_cache_file_path_for("/data", "team/blue")
    );
}

#[test]
fn join_path_puts_one_separator() {
    assert_eq!(join_path("/tmp", "x"), "/tmp/x");
    assert_eq!(join_path("/tmp/", "x"), "/tmp/x");
    assert_eq!(join_path("", "x"), "x");
    assert_eq!(join_path("/", "x"), "/x");
}

#[test]
fn paths_for_a_blank_profile_use_the_default_name() {
    assert_eq!(
        identity_file_path_for("/d", " "),
        "/d/aethos-linux/identity-default.json"
    );
    assert_eq!(
        session_cache_file_path_for("/d/", ""),
        "/d/aethos-linux/session-cache-default.enc.json"
    );
    assert_eq!(APP_DIR_NAME, "aethos-linux");
}

#[test]
fn data_root_prefers_the_override() {
    let env = StorageEnv {
        xdg_data_home: Some("/xdg".to_string()),
        home: Some("/home/u".to_string()),
        temp_dir: "/tmp".to_string(),
    };
    assert_eq!(base_data_dir(&env), "/xdg");
    assert_eq!(
        identity_file_path(&env, "alpha"),
        "/xdg/aethos-linux/identity-alpha.json"
    );
}

#[test]
fn data_root_falls_back_to_home_when_override_is_blank() {
    let env = StorageEnv {
        xdg_data_home: Some("  ".to_string()),
        home: Some("/home/u".to_string()),
        temp_dir: "/tmp".to_string(),
    };
    assert_eq!(base_data_dir(&env), "/home/u/.local/share");
    assert_eq!(
        session_cache_file_path(&env, "alpha"),
        "/home/u/.local/share/aethos-linux/session-cache-alpha.enc.json"
    );
}

#[test]
fn data_root_falls_back_to_the_temp_dir() {
    let env = StorageEnv {
        xdg_data_home: None,
        home: None,
        temp_dir: "/var/tmp".to_string(),
    };
    assert_eq!(base_data_dir(&env), "/var/tmp");
}

#[test]
fn data_root_keeps_the_override_untrimmed() {
    let env = StorageEnv {
        xdg_data_home: Some(" /xdg ".to_string()),
        home: None,
        temp_dir: "/tmp".to_string(),
    };
    assert_eq!(base_data_dir(&env), " /xdg ");
}

#[test]
fn device_name_comes_from_the_host_name() {
    assert_eq!(infer_device_name(Some("workstation")), "workstation");
    assert_eq!(infer_device_name(Some(" padded ")), " padded ");
    assert_eq!(infer_device_name(Some("  ")), DEFAULT_DEVICE_NAME);
    assert_eq!(infer_device_name(Some("")), "linux-device");
    assert_eq!(infer_device_name(None), "linux-device");
}

fn has_white_space_property(c: char) -> bool {
    matches!(
        c,
        '\u{9}'..='\u{d}'
            | ' '
            | '\u{85}'
            | '\u{a0}'
            | '\u{1680}'
            | '\u{2000}'..='\u{200a}'
            | '\u{2028}'
            | '\u{2029}'
            | '\u{202f}'
            | '\u{205f}'
            | '\u{3000}'
    )
}

#[test]
fn every_character_is_blank_exactly_when_it_is_white_space() {
    let mut white = 0;
    for code in 0..=0x10ffffu32 {
        if let Some(c) = char::from_u32(code) {
            let text = c.to_string();
            assert_eq!(blank(&text), has_white_space_property(c), "U+{:04X}", code);
            if blank(&text) {
                white += 1;
            }
        }
    }
    assert_eq!(white, 25);
}

#[test]
fn white_space_around_a_name_is_dropped_one_character_at_a_time() {
    for c in ['\u{b}', '\u{c}', '\u{85}', '\u{1680}', '\u{2007}', '\u{202f}', '\u{205f}'] {
        assert_eq!(sanitize_profile(&format!("{}a{}b{}", c, c, c)), "a_b");
    }
    for c in ['\u{1c}', '\u{180e}', '\u{200b}', '\u{2060}', '\u{feff}'] {
        assert_eq!(sanitize_profile(&format!("{}a{}", c, c)), "_a_");
    }
}

#[test]
fn blank_recognises_white_space_only() {
    assert!(blank(""));
    assert!(blank(" \t\r\n"));
    assert!(!blank(" x "));
}
