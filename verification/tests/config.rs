use copypasta_ext::config::is_usable;
use copypasta_ext::config::override_path;
use copypasta_ext::Config;

#[test]
fn config_paths_count_when_not_blank() {
    let set = Some(String::from("/usr/bin/xclip"));
    assert!(is_usable(&set));
    assert_eq!(override_path(&set), set);
    let padded = Some(String::from(" /usr/bin/xsel "));
    assert!(is_usable(&padded));
    assert_eq!(override_path(&padded), padded);
    for blank in [None, Some(String::new()), Some(String::from(" \t"))] {
        assert!(!is_usable(&blank));
        assert_eq!(override_path(&blank), None);
    }
}

#[test]
fn config_default_names_no_helper() {
    assert_eq!(
        Config::default(),
        Config { xclip_path: None, xsel_path: None, wl_copy_path: None, wl_paste_path: None }
    );
}
