use vst3_host::select::{find_plugin, PluginInfo};

fn plugin(name: &str, is_instrument: bool) -> PluginInfo {
    PluginInfo { name: name.to_string(), library_path: format!("/plugins/{name}.so"), is_instrument }
}

#[test]
fn finds_first_matching_instrument() {
    let plugins = vec![
        plugin("Surge XT Effects", false),
        plugin("Dexed", true),
        plugin("Surge XT", true),
        plugin("surge", true),
    ];
    assert_eq!(find_plugin(&plugins, "surge"), Some(2));
}

#[test]
fn match_ignores_ascii_case_on_both_sides() {
    let plugins = vec![plugin("SURGE xt", true)];
    assert_eq!(find_plugin(&plugins, "Surge"), Some(0));
    assert_eq!(find_plugin(&plugins, "E X"), Some(0));
}

#[test]
fn effects_are_never_chosen() {
    let plugins = vec![plugin("Surge XT Effects", false)];
    assert_eq!(find_plugin(&plugins, "surge"), None);
}

#[test]
fn no_match_and_empty_list() {
    let plugins = vec![plugin("Dexed", true), plugin("Vital", true)];
    assert_eq!(find_plugin(&plugins, "surge"), None);
    assert_eq!(find_plugin(&vec![], "surge"), None);
}

#[test]
fn empty_name_matches_first_instrument() {
    let plugins = vec![plugin("Reverb", false), plugin("Dexed", true)];
    assert_eq!(find_plugin(&plugins, ""), Some(1));
}

#[test]
fn non_ascii_letters_are_compared_exactly() {
    let plugins = vec![plugin("ÉCHO synth", true)];
    assert_eq!(find_plugin(&plugins, "écho"), None);
    assert_eq!(find_plugin(&plugins, "Écho"), Some(0));
}
