use chromebook_audio::install::AMD_PLATFORMS;
use chromebook_audio::SOF_BOARD_GENERATIONS;
use chromebook_audio::service::{
    board_family, overlay_target, select_setup, service_steps, setup_steps, AudioChoice,
    AudioSetup, BoardFamily, ServiceStep,
};

fn log(s: &str) -> ServiceStep {
    ServiceStep::Log(s.to_string())
}

fn mount(source: &str, target: &str) -> ServiceStep {
    ServiceStep::Mount { source: source.to_string(), target: target.to_string() }
}

fn overlay(name: &str) -> Vec<ServiceStep> {
    vec![
        log(&format!("Enabling overlay: {}", name)),
        mount(
            "/etc/os-release",
            &format!(
                "/etc/extensions/{}/usr/lib/extension-release.d/extension-release.{}",
                name, name
            ),
        ),
    ]
}

#[test]
fn families_of_generations() {
    for g in ["bdw", "byt", "bsw"] {
        assert_eq!(board_family(g), BoardFamily::Braswell);
    }
    for g in ["skl", "kbl"] {
        assert_eq!(board_family(g), BoardFamily::Skylake);
    }
    assert_eq!(board_family("apl"), BoardFamily::ApolloLake);
    for g in ["glk", "cml", "tgl", "jsl", "adl"] {
        assert_eq!(board_family(g), BoardFamily::Sof);
    }
    for g in ["stoney", "picasso", "cezanne", "mendocino"] {
        assert_eq!(board_family(g), BoardFamily::Amd);
    }
    assert_eq!(board_family("mt8183"), BoardFamily::Mediatek);
    assert_eq!(board_family("zork"), BoardFamily::Unsupported);
    assert_eq!(board_family(""), BoardFamily::Unsupported);
    assert_eq!(board_family("APL"), BoardFamily::Unsupported);
}

#[test]
fn probe_needed_only_for_skylake_and_apollo_lake() {
    assert!(BoardFamily::Skylake.needs_probe());
    assert!(BoardFamily::ApolloLake.needs_probe());
    assert!(!BoardFamily::Sof.needs_probe());
    assert!(!BoardFamily::Braswell.needs_probe());
    assert!(!BoardFamily::Amd.needs_probe());
    assert!(!BoardFamily::Mediatek.needs_probe());
    assert!(!BoardFamily::Unsupported.needs_probe());
}

#[test]
fn skylake_selection() {
    let with = Some(AudioChoice::AvsWithMax98357a);
    assert_eq!(select_setup(BoardFamily::Skylake, true, with), AudioSetup::Avs { max98357a: true });
    assert_eq!(select_setup(BoardFamily::Skylake, false, with), AudioSetup::Avs { max98357a: false });
    assert_eq!(select_setup(BoardFamily::Skylake, true, None), AudioSetup::Avs { max98357a: false });
    assert_eq!(
        select_setup(BoardFamily::Skylake, true, Some(AudioChoice::Sof)),
        AudioSetup::Avs { max98357a: false }
    );
}

#[test]
fn apollo_lake_selection() {
    assert_eq!(select_setup(BoardFamily::ApolloLake, true, None), AudioSetup::Sof);
    assert_eq!(select_setup(BoardFamily::ApolloLake, false, None), AudioSetup::Sof);
    assert_eq!(
        select_setup(BoardFamily::ApolloLake, true, Some(AudioChoice::AvsWithMax98357a)),
        AudioSetup::Avs { max98357a: true }
    );
    assert_eq!(
        select_setup(BoardFamily::ApolloLake, false, Some(AudioChoice::AvsWithMax98357a)),
        AudioSetup::Avs { max98357a: false }
    );
    assert_eq!(
        select_setup(BoardFamily::ApolloLake, true, Some(AudioChoice::AvsWithoutMax98357a)),
        AudioSetup::Avs { max98357a: false }
    );
    assert_eq!(
        select_setup(BoardFamily::ApolloLake, true, Some(AudioChoice::Sof)),
        AudioSetup::Sof
    );
}

#[test]
fn probe_ignored_elsewhere() {
    for f in [
        BoardFamily::Braswell,
        BoardFamily::Sof,
        BoardFamily::Amd,
        BoardFamily::Mediatek,
        BoardFamily::Unsupported,
    ] {
        let base = select_setup(f, false, None);
        assert_eq!(select_setup(f, true, Some(AudioChoice::AvsWithMax98357a)), base);
        assert_eq!(select_setup(f, true, Some(AudioChoice::AvsWithoutMax98357a)), base);
    }
    assert_eq!(select_setup(BoardFamily::Braswell, true, None), AudioSetup::Bsw);
    assert_eq!(select_setup(BoardFamily::Amd, true, None), AudioSetup::Amd);
    assert_eq!(select_setup(BoardFamily::Mediatek, true, None), AudioSetup::Mt8183);
    assert_eq!(select_setup(BoardFamily::Unsupported, true, None), AudioSetup::Unsupported);
}

#[test]
fn overlay_target_path() {
    assert_eq!(
        overlay_target("x"),
        "/etc/extensions/x/usr/lib/extension-release.d/extension-release.x"
    );
}

#[test]
fn not_a_chromebook() {
    assert_eq!(
        service_steps(None, true, Some(AudioChoice::Sof)),
        vec![log("Not a chromebook. Not overlaying Chromebook audio.")]
    );
}

#[test]
fn sof_board_steps() {
    let mut expected = vec![log("Enabling SOF audio")];
    expected.extend(overlay("chromebook-audio-common-ucm"));
    expected.extend(overlay("chromebook-audio-sof-tgl"));
    expected.push(mount("/usr/share/chromebook-audio/snd-sof.conf", "/etc/modprobe.d/snd-sof.conf"));
    expected.push(ServiceStep::Finish);
    assert_eq!(service_steps(Some("tgl"), false, None), expected);
}

#[test]
fn apollo_lake_without_choice_runs_sof() {
    let mut expected = vec![log("Enabling SOF audio")];
    expected.extend(overlay("chromebook-audio-common-ucm"));
    expected.extend(overlay("chromebook-audio-sof-apl"));
    expected.push(mount("/usr/share/chromebook-audio/snd-sof.conf", "/etc/modprobe.d/snd-sof.conf"));
    expected.push(ServiceStep::Finish);
    assert_eq!(service_steps(Some("apl"), true, None), expected);
}

#[test]
fn avs_steps_with_and_without_max98357a() {
    let mut with = avs_common();
    with.push(log("Enabling max98357a"));
    with.extend(overlay("chromebook-audio-avs-max98357a"));
    with.push(ServiceStep::Finish);
    let mut without = avs_common();
    without.push(log("Not enabling max98357a"));
    without.push(ServiceStep::Finish);
    assert_eq!(service_steps(Some("skl"), true, Some(AudioChoice::AvsWithMax98357a)), with);
    assert_eq!(service_steps(Some("kbl"), true, None), without);
    assert_eq!(service_steps(Some("kbl"), false, Some(AudioChoice::AvsWithMax98357a)), without);
    assert_eq!(setup_steps(AudioSetup::Avs { max98357a: true }, "anything"), with);
}

fn avs_common() -> Vec<ServiceStep> {
    let mut common = vec![log("Enabling AVS")];
    common.extend(overlay("chromebook-audio-avs"));
    common.push(mount("/usr/share/chromebook-audio/snd-avs.conf", "/etc/modprobe.d/snd-avs.conf"));
    common.push(mount(
        "/usr/share/chromebook-audio/51-avs-dmic.lua",
        "/etc/wireplumber/main.lua.d/51-avs-dmic.lua",
    ));
    common
}

#[test]
fn braswell_steps() {
    assert_eq!(
        service_steps(Some("byt"), false, None),
        vec![
            log("Enabling bsw audio"),
            mount("/usr/share/chromebook-audio/bsw-sof.conf", "/etc/modprobe.d/bsw-sof.conf"),
            ServiceStep::Finish,
        ]
    );
}

#[test]
fn amd_steps() {
    let mut expected = vec![log("Enabling AMD audio")];
    expected.extend(overlay("chromebook-audio-common-ucm"));
    expected.extend(overlay("chromebook-audio-cezanne"));
    expected.push(ServiceStep::Finish);
    assert_eq!(service_steps(Some("cezanne"), false, None), expected);
}

#[test]
fn mediatek_steps() {
    let mut expected = vec![log("Enabling mt8183 audio")];
    expected.extend(overlay("chromebook-audio-mt8138"));
    expected.push(ServiceStep::Finish);
    assert_eq!(service_steps(Some("mt8183"), false, None), expected);
}

#[test]
fn unsupported_generation() {
    assert_eq!(
        service_steps(Some("zork"), true, Some(AudioChoice::Sof)),
        vec![log("Audio not implemented for zork yet")]
    );
}

#[test]
fn finish_exactly_after_mounts_on_examples() {
    for g in ["bdw", "skl", "apl", "glk", "stoney", "mt8183", "zork"] {
        let steps = service_steps(Some(g), true, Some(AudioChoice::AvsWithMax98357a));
        let mounts = steps.iter().any(|s| matches!(s, ServiceStep::Mount { .. }));
        let last_finish = matches!(steps.last(), Some(ServiceStep::Finish));
        assert_eq!(mounts, last_finish);
        let finishes = steps.iter().filter(|s| matches!(s, ServiceStep::Finish)).count();
        assert_eq!(finishes, if last_finish { 1 } else { 0 });
    }
}

#[test]
fn built_overlays_match_families() {
    for g in SOF_BOARD_GENERATIONS {
        let f = board_family(g);
        assert!(f == BoardFamily::Sof || f == BoardFamily::ApolloLake);
    }
    for p in AMD_PLATFORMS {
        assert_eq!(board_family(p), BoardFamily::Amd);
    }
}
