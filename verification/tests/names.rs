use chromebook_audio::names::{platform_extension_name, sof_extension_name};
use chromebook_audio::{
    get_avs_extension_name, get_avs_max98357a_extension_name, get_common_ucm_extension_name,
    get_mt8138_extension_name, EXTENSION_PREFIX, SOF_BOARD_GENERATIONS,
};

#[test]
fn fixed_overlay_names() {
    assert_eq!(EXTENSION_PREFIX, "chromebook-audio");
    assert_eq!(get_common_ucm_extension_name(), "chromebook-audio-common-ucm");
    assert_eq!(get_avs_extension_name(), "chromebook-audio-avs");
    assert_eq!(get_avs_max98357a_extension_name(), "chromebook-audio-avs-max98357a");
    assert_eq!(get_mt8138_extension_name(), "chromebook-audio-mt8138");
}

#[test]
fn sof_generations_in_order() {
    assert_eq!(SOF_BOARD_GENERATIONS, ["glk", "apl", "cml", "tgl", "jsl", "adl"]);
}

#[test]
fn per_board_overlay_names() {
    assert_eq!(sof_extension_name("glk"), "chromebook-audio-sof-glk");
    assert_eq!(sof_extension_name(""), "chromebook-audio-sof-");
    assert_eq!(platform_extension_name("stoney"), "chromebook-audio-stoney");
    assert_eq!(platform_extension_name("mendocino"), "chromebook-audio-mendocino");
}

#[test]
fn every_name_carries_the_prefix() {
    let names = vec![
        get_common_ucm_extension_name(),
        get_avs_extension_name(),
        get_avs_max98357a_extension_name(),
        get_mt8138_extension_name(),
        sof_extension_name("tgl"),
        platform_extension_name("picasso"),
    ];
    for n in &names {
        assert!(n.starts_with("chromebook-audio-"));
    }
}
