use std::collections::HashSet;

use chromebook_audio::service::{service_steps, AudioChoice, ServiceStep};

use chromebook_audio::install::{
    amd_ucm_dirs, create_extension, extension_dir, generate_plan, post_install_plan, setup_plan,
    sof_ucm_dirs, FsOp, AMD_PLATFORMS, EXTENSIONS_DIR, MT8183_UCM_DIRS,
};

fn s(x: &str) -> String {
    x.to_string()
}

#[test]
fn extension_skeleton() {
    assert_eq!(extension_dir("n"), "extensions/n");
    assert_eq!(
        create_extension("chromebook-audio-avs"),
        vec![
            FsOp::CreateDir(s("extensions/chromebook-audio-avs")),
            FsOp::CreateDirAll(s("extensions/chromebook-audio-avs/usr/lib/extension-release.d")),
            FsOp::WriteEmpty(s(
                "extensions/chromebook-audio-avs/usr/lib/extension-release.d/extension-release.chromebook-audio-avs"
            )),
        ]
    );
}

#[test]
fn ucm_directories() {
    assert_eq!(sof_ucm_dirs("glk"), vec!["sof-glkda7219ma", "sof-cs42l42", "sof-glkrt5682ma"]);
    assert_eq!(sof_ucm_dirs("apl"), vec!["sof-bxtda7219ma"]);
    assert_eq!(
        sof_ucm_dirs("cml"),
        vec!["sof-rt5682", "sof-cmlda7219ma", "sof-cml_rt1011_", "sof-cml_max9839"]
    );
    assert_eq!(sof_ucm_dirs("tgl"), vec!["sof-rt5682"]);
    assert_eq!(sof_ucm_dirs("jsl"), vec!["sof-rt5682", "sof-da7219max98", "sof-cs42l42"]);
    assert_eq!(sof_ucm_dirs("adl"), vec!["sof-rt5682", "sof-nau8825", "sof-ssp_amp"]);
    assert_eq!(amd_ucm_dirs("stoney"), vec!["acpd7219m98357"]);
    assert_eq!(amd_ucm_dirs("picasso"), vec!["acp3xalc5682m98", "acp3xalc5682101"]);
    assert_eq!(amd_ucm_dirs("cezanne"), vec!["sof-rt5682s-rt1"]);
    assert_eq!(amd_ucm_dirs("mendocino"), vec!["sof-rt5682s-hs-"]);
    assert_eq!(AMD_PLATFORMS, ["stoney", "picasso", "cezanne", "mendocino"]);
    assert_eq!(MT8183_UCM_DIRS, ["mt8183_da7219_r", "mt8183_mt6358_t"]);
}

#[test]
fn generate_plan_shape() {
    let plan = generate_plan();
    assert_eq!(plan.len(), 90);
    assert_eq!(plan[0], FsOp::RemoveDirAllIfPresent(s(EXTENSIONS_DIR)));
    assert_eq!(plan[1], FsOp::CreateDir(s("extensions")));
    assert_eq!(plan[2], FsOp::CreateDir(s("extensions/chromebook-audio-common-ucm")));
    assert_eq!(
        plan[6],
        FsOp::CopyTree {
            from: s("chromebook-ucm-conf/common"),
            to: s("extensions/chromebook-audio-common-ucm/usr/share/alsa/ucm2/common"),
        }
    );
    assert_eq!(plan[7], FsOp::CreateDir(s("extensions/chromebook-audio-sof-glk")));
    assert_eq!(
        plan[11],
        FsOp::CopyTree {
            from: s("chromebook-ucm-conf/glk/sof-glkda7219ma"),
            to: s("extensions/chromebook-audio-sof-glk/usr/share/alsa/ucm2/conf.d/sof-glkda7219ma"),
        }
    );
    assert_eq!(
        plan[89],
        FsOp::CopyTree {
            from: s("conf/amd-sof/tplg"),
            to: s("extensions/chromebook-audio-mendocino/usr/lib/firmware/amd/sof-tplg"),
        }
    );
    assert!(plan.contains(&FsOp::RemoveFile(s(
        "extensions/chromebook-audio-avs/usr/lib/firmware/intel/avs/max98357a-tplg.bin"
    ))));
    assert!(plan.contains(&FsOp::CopyFile {
        from: s("conf/avs/tplg/max98357a-tplg.bin"),
        to: s("extensions/chromebook-audio-avs-max98357a/usr/lib/firmware/intel/avs/max98357a-tplg.bin"),
    }));
    assert!(plan.contains(&FsOp::CopyTree {
        from: s("chromebook-ucm-conf/mt8183/mt8183_mt6358_t"),
        to: s("extensions/chromebook-audio-mt8138/usr/share/alsa/ucm2/conf.d/mt8183_mt6358_t"),
    }));
}

#[test]
fn generate_creates_each_directory_once() {
    let created: Vec<String> = generate_plan()
        .into_iter()
        .filter_map(|op| match op {
            FsOp::CreateDir(p) => Some(p),
            _ => None,
        })
        .collect();
    assert_eq!(created.len(), 15);
    let distinct: HashSet<&String> = created.iter().collect();
    assert_eq!(distinct.len(), created.len());
    assert_eq!(created[0], "extensions");
}

#[test]
fn post_install_copies() {
    let plan = post_install_plan();
    assert_eq!(plan.len(), 7);
    assert_eq!(
        plan[0],
        FsOp::CopyFile {
            from: s("/etc/os-release"),
            to: s("/etc/extensions/chromebook-sof-common/usr/lib/extension-release.d/.extension-release.chromebook-sof-common"),
        }
    );
    assert_eq!(
        plan[6],
        FsOp::CopyFile {
            from: s("/etc/os-release"),
            to: s("/etc/extensions/chromebook-sof-adl/usr/lib/extension-release.d/.extension-release.chromebook-sof-adl"),
        }
    );
}

#[test]
fn setup_steps_for_an_extension_dir() {
    assert_eq!(
        setup_plan("/x", "ext"),
        vec![
            FsOp::Log(s("Creating systemd-sysext extension")),
            FsOp::CreateDirAll(s("/x/usr/lib/extension-release.d")),
            FsOp::CopyFile {
                from: s("/etc/os-release"),
                to: s("/x/usr/lib/extension-release.d/extension-release.ext"),
            },
            FsOp::Log(s("Copying UCM conf")),
            FsOp::CreateDirAll(s("/x/usr/lib/chromebook-audio/chromebook-ucm-conf")),
            FsOp::CopyTree {
                from: s("chromebook-ucm-conf"),
                to: s("/x/usr/lib/chromebook-audio/chromebook-ucm-conf"),
            },
            FsOp::Log(s("Copying conf")),
            FsOp::CreateDirAll(s("/x/usr/lib/chromebook-audio/conf")),
            FsOp::CopyTree { from: s("conf"), to: s("/x/usr/lib/chromebook-audio/conf") },
            FsOp::Log(s("Enabling systemd-sysext")),
            FsOp::Run {
                program: s("systemctl"),
                args: vec![s("enable"), s("--now"), s("systemd-sysext")],
            },
        ]
    );
}

#[test]
fn service_overlays_are_generated() {
    let plan = generate_plan();
    let generated: Vec<String> = plan
        .iter()
        .filter_map(|op| match op {
            FsOp::CreateDir(p) => p.strip_prefix("extensions/").map(|n| n.to_string()),
            _ => None,
        })
        .collect();
    for g in ["bdw", "skl", "kbl", "apl", "glk", "cml", "tgl", "jsl", "adl", "stoney", "picasso",
        "cezanne", "mendocino", "mt8183"]
    {
        let steps = service_steps(Some(g), true, Some(AudioChoice::AvsWithMax98357a));
        for step in &steps {
            if let ServiceStep::Mount { source, target } = step {
                if source == "/etc/os-release" {
                    assert!(generated.iter().any(|n| *target
                        == format!("/etc/extensions/{n}/usr/lib/extension-release.d/extension-release.{n}")));
                }
            }
        }
    }
}

#[test]
fn extension_plans_touch_disjoint_directories() {
    let target = |op: &FsOp| -> String {
        match op {
            FsOp::CreateDir(p) | FsOp::CreateDirAll(p) | FsOp::WriteEmpty(p) => p.clone(),
            _ => panic!("unexpected operation"),
        }
    };
    let under = |p: &str, d: &str| p == d || p.starts_with(&format!("{d}/"));
    for op in create_extension("chromebook-audio-avs") {
        let p = target(&op);
        assert!(under(&p, "extensions/chromebook-audio-avs"));
        assert!(!under(&p, "extensions/chromebook-audio-avs-max98357a"));
    }
    for op in create_extension("chromebook-audio-avs-max98357a") {
        let p = target(&op);
        assert!(under(&p, "extensions/chromebook-audio-avs-max98357a"));
        assert!(!under(&p, "extensions/chromebook-audio-avs"));
    }
}

#[test]
fn extension_plan_is_not_repeatable() {
    let mut twice = create_extension("n");
    twice.extend(create_extension("n"));
    let created: Vec<&FsOp> = twice.iter().filter(|op| matches!(op, FsOp::CreateDir(_))).collect();
    assert_eq!(created, vec![&FsOp::CreateDir(s("extensions/n")), &FsOp::CreateDir(s("extensions/n"))]);
    assert!(!twice.iter().any(|op| matches!(op, FsOp::RemoveFile(_) | FsOp::RemoveDirAllIfPresent(_))));
}
