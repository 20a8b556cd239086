use vstd::prelude::*;

use crate::install::{
    spec_amd_platforms, spec_amd_section, spec_amd_sections, spec_amd_ucm_dirs, spec_conf_d,
    spec_copy_dirs, spec_create_extension, spec_extension_dir, spec_sof_generations,
    spec_sof_section, spec_sof_sections, spec_sof_ucm_dirs, FsOpView, EXTENSIONS_DIR,
    spec_common_section, spec_avs_section, spec_mt8183_section, spec_mendocino_firmware,
    spec_generate_plan, strs_view, MT8183_UCM_DIRS, created_dirs, lemma_created_dirs_append,
    op_target, spec_copy_os_release, spec_post_install_copies, spec_post_install_plan,
    spec_post_install_target, under, lemma_not_under, lemma_under_own, spec_path,
    spec_avs_firmware, spec_release_file, spec_setup_plan,
};
use crate::service::{
    spec_board_family, spec_overlay_target, spec_select_setup, spec_service_steps, spec_setup_steps,
    AudioChoice, AudioSetup, BoardFamily, ServiceStepView, OS_RELEASE,
};
use crate::names::{
    prefixed, spec_platform_extension_name, spec_sof_extension_name, EXTENSION_PREFIX,
    SOF_BOARD_GENERATIONS,
};

verus! {

/// The suffixes after `EXTENSION_PREFIX` and a dash of the names of the overlays the
/// generate tool builds, in the order it builds them.
pub open spec fn spec_generated_suffixes() -> Seq<Seq<char>> {
    seq!["common-ucm"@]
        + spec_sof_generations().map_values(|g: Seq<char>| "sof-"@ + g)
        + seq!["avs"@, "avs-max98357a"@, "mt8138"@]
        + spec_amd_platforms()
}

/// The names of the overlays the generate tool builds, in the order it builds them.
pub open spec fn spec_generated_extensions() -> Seq<Seq<char>> {
    spec_generated_suffixes().map_values(|s: Seq<char>| prefixed(s))
}

spec fn key(s: Seq<char>) -> (int, char, char) {
    (s.len() as int, s[0], s[5])
}

proof fn lemma_suffixes_distinct()
    ensures
        spec_generated_suffixes().no_duplicates(),
{
    reveal_strlit("common-ucm");
    reveal_strlit("sof-");
    reveal_strlit("avs");
    reveal_strlit("avs-max98357a");
    reveal_strlit("mt8138");
    reveal_strlit("glk");
    reveal_strlit("apl");
    reveal_strlit("cml");
    reveal_strlit("tgl");
    reveal_strlit("jsl");
    reveal_strlit("adl");
    reveal_strlit("stoney");
    reveal_strlit("picasso");
    reveal_strlit("cezanne");
    reveal_strlit("mendocino");
    let gens = spec_sof_generations();
    assert(gens =~= seq!["glk"@, "apl"@, "cml"@, "tgl"@, "jsl"@, "adl"@]);
    let plats = spec_amd_platforms();
    assert(plats =~= seq!["stoney"@, "picasso"@, "cezanne"@, "mendocino"@]);
    let ss = spec_generated_suffixes();
    assert(ss =~= seq![
        "common-ucm"@,
        "sof-"@ + "glk"@,
        "sof-"@ + "apl"@,
        "sof-"@ + "cml"@,
        "sof-"@ + "tgl"@,
        "sof-"@ + "jsl"@,
        "sof-"@ + "adl"@,
        "avs"@,
        "avs-max98357a"@,
        "mt8138"@,
        "stoney"@,
        "picasso"@,
        "cezanne"@,
        "mendocino"@,
    ]);
    let ks = ss.map_values(|s: Seq<char>| key(s));
    assert(ks =~= seq![
        (10int, 'c', 'n'),
        (7int, 's', 'l'),
        (7int, 's', 'p'),
        (7int, 's', 'm'),
        (7int, 's', 'g'),
        (7int, 's', 's'),
        (7int, 's', 'd'),
        (3int, 'a', ss[7][5]),
        (13int, 'a', 'a'),
        (6int, 'm', '8'),
        (6int, 's', 'y'),
        (7int, 'p', 's'),
        (7int, 'c', 'n'),
        (9int, 'm', 'c'),
    ]);
    assert forall|i: int, j: int| 0 <= i < ss.len() && 0 <= j < ss.len() && i != j implies ss[i]
        != ss[j] by {
        assert(ks[i] != ks[j]);
    }
}

proof fn lemma_prefixed_injective(a: Seq<char>, b: Seq<char>)
    requires
        prefixed(a) == prefixed(b),
    ensures
        a == b,
{
    let p = EXTENSION_PREFIX@ + "-"@;
    assert(prefixed(a) =~= p + a);
    assert(prefixed(b) =~= p + b);
    assert((p + a).subrange(p.len() as int, (p + a).len() as int) =~= a);
    assert((p + b).subrange(p.len() as int, (p + b).len() as int) =~= b);
}

proof fn lemma_extension_dir_injective(a: Seq<char>, b: Seq<char>)
    requires
        spec_extension_dir(a) == spec_extension_dir(b),
    ensures
        a == b,
{
    let p = EXTENSIONS_DIR@ + "/"@;
    assert(spec_extension_dir(a) =~= p + a);
    assert(spec_extension_dir(b) =~= p + b);
    assert((p + a).subrange(p.len() as int, (p + a).len() as int) =~= a);
    assert((p + b).subrange(p.len() as int, (p + b).len() as int) =~= b);
}

/// The overlays the generate tool builds have pairwise distinct names, each made of
/// `EXTENSION_PREFIX`, a dash and a suffix of its own.
pub proof fn law_generated_extensions_distinct()
    ensures
        spec_generated_extensions().no_duplicates(),
        forall|i: int|
            0 <= i < spec_generated_extensions().len() ==> (EXTENSION_PREFIX@ + "-"@).is_prefix_of(
                #[trigger] spec_generated_extensions()[i],
            ),
{
    lemma_suffixes_distinct();
    let ss = spec_generated_suffixes();
    let ns = spec_generated_extensions();
    assert forall|i: int, j: int| 0 <= i < ns.len() && 0 <= j < ns.len() && i != j implies ns[i]
        != ns[j] by {
        if ns[i] == ns[j] {
            lemma_prefixed_injective(ss[i], ss[j]);
        }
    }
    assert forall|i: int| 0 <= i < ns.len() implies (EXTENSION_PREFIX@ + "-"@).is_prefix_of(
        #[trigger] ns[i],
    ) by {
        let p = EXTENSION_PREFIX@ + "-"@;
        assert(ns[i] =~= p + ss[i]);
        assert(ns[i].subrange(0, p.len() as int) =~= p);
    }
}

proof fn lemma_created_dirs_none(ops: Seq<FsOpView>)
    requires
        forall|i: int| 0 <= i < ops.len() ==> !(#[trigger] ops[i] is CreateDir),
    ensures
        created_dirs(ops) == Seq::<Seq<char>>::empty(),
    decreases ops.len(),
{
    if ops.len() > 0 {
        lemma_created_dirs_none(ops.drop_last());
        assert(!(ops[ops.len() - 1] is CreateDir));
    }
}

proof fn lemma_copy_dirs_create_nothing(dirs: Seq<Seq<char>>, from: Seq<char>, to: Seq<char>)
    ensures
        created_dirs(spec_copy_dirs(dirs, from, to)) == Seq::<Seq<char>>::empty(),
    decreases dirs.len(),
{
    if dirs.len() > 0 {
        lemma_copy_dirs_create_nothing(dirs.drop_last(), from, to);
        let prev = spec_copy_dirs(dirs.drop_last(), from, to);
        assert(spec_copy_dirs(dirs, from, to).drop_last() =~= prev);
    }
}

proof fn lemma_create_extension_dirs(name: Seq<char>)
    ensures
        created_dirs(spec_create_extension(name)) == seq![spec_extension_dir(name)],
{
    let ops = spec_create_extension(name);
    let o1 = ops.drop_last().drop_last();
    assert(o1 =~= seq![FsOpView::CreateDir(spec_extension_dir(name))]);
    assert(o1.drop_last() =~= Seq::<FsOpView>::empty());
    assert(created_dirs(o1.drop_last()) =~= Seq::<Seq<char>>::empty());
    assert(created_dirs(o1) =~= seq![spec_extension_dir(name)]);
    assert(created_dirs(ops.drop_last()) =~= seq![spec_extension_dir(name)]);
    assert(created_dirs(ops) =~= seq![spec_extension_dir(name)]);
}

proof fn lemma_tail_creates_nothing(name: Seq<char>, tail: Seq<FsOpView>)
    requires
        created_dirs(tail) == Seq::<Seq<char>>::empty(),
    ensures
        created_dirs(spec_create_extension(name) + tail) == seq![spec_extension_dir(name)],
{
    lemma_created_dirs_append(spec_create_extension(name), tail);
    lemma_create_extension_dirs(name);
    assert(seq![spec_extension_dir(name)] + Seq::<Seq<char>>::empty() =~= seq![
        spec_extension_dir(name),
    ]);
}

proof fn lemma_section_dirs(name: Seq<char>, conf_d: Seq<char>, copies: Seq<FsOpView>)
    requires
        created_dirs(copies) == Seq::<Seq<char>>::empty(),
    ensures
        created_dirs(
            spec_create_extension(name) + seq![FsOpView::CreateDirAll(conf_d)] + copies,
        ) == seq![spec_extension_dir(name)],
{
    let one = seq![FsOpView::CreateDirAll(conf_d)];
    lemma_created_dirs_none(one);
    lemma_created_dirs_append(one, copies);
    assert(created_dirs(one + copies) =~= Seq::<Seq<char>>::empty());
    assert(spec_create_extension(name) + one + copies =~= spec_create_extension(name) + (one
        + copies));
    lemma_tail_creates_nothing(name, one + copies);
}

proof fn lemma_sof_sections_dirs(gs: Seq<Seq<char>>)
    ensures
        created_dirs(spec_sof_sections(gs)) == gs.map_values(
            |g: Seq<char>| spec_extension_dir(spec_sof_extension_name(g)),
        ),
    decreases gs.len(),
{
    if gs.len() == 0 {
        assert(created_dirs(spec_sof_sections(gs)) =~= gs.map_values(
            |g: Seq<char>| spec_extension_dir(spec_sof_extension_name(g)),
        ));
    } else {
        let g = gs.last();
        lemma_sof_sections_dirs(gs.drop_last());
        lemma_copy_dirs_create_nothing(
            spec_sof_ucm_dirs(g),
            "chromebook-ucm-conf/"@ + g,
            spec_conf_d(spec_sof_extension_name(g)),
        );
        lemma_section_dirs(
            spec_sof_extension_name(g),
            spec_conf_d(spec_sof_extension_name(g)),
            spec_copy_dirs(
                spec_sof_ucm_dirs(g),
                "chromebook-ucm-conf/"@ + g,
                spec_conf_d(spec_sof_extension_name(g)),
            ),
        );
        lemma_created_dirs_append(spec_sof_sections(gs.drop_last()), spec_sof_section(g));
        assert(created_dirs(spec_sof_sections(gs)) =~= gs.map_values(
            |g: Seq<char>| spec_extension_dir(spec_sof_extension_name(g)),
        ));
    }
}

proof fn lemma_amd_sections_dirs(ps: Seq<Seq<char>>)
    ensures
        created_dirs(spec_amd_sections(ps)) == ps.map_values(
            |p: Seq<char>| spec_extension_dir(spec_platform_extension_name(p)),
        ),
    decreases ps.len(),
{
    if ps.len() == 0 {
        assert(created_dirs(spec_amd_sections(ps)) =~= ps.map_values(
            |p: Seq<char>| spec_extension_dir(spec_platform_extension_name(p)),
        ));
    } else {
        let p = ps.last();
        lemma_amd_sections_dirs(ps.drop_last());
        lemma_copy_dirs_create_nothing(
            spec_amd_ucm_dirs(p),
            "chromebook-ucm-conf/"@ + p,
            spec_conf_d(spec_platform_extension_name(p)),
        );
        lemma_section_dirs(
            spec_platform_extension_name(p),
            spec_conf_d(spec_platform_extension_name(p)),
            spec_copy_dirs(
                spec_amd_ucm_dirs(p),
                "chromebook-ucm-conf/"@ + p,
                spec_conf_d(spec_platform_extension_name(p)),
            ),
        );
        lemma_created_dirs_append(spec_amd_sections(ps.drop_last()), spec_amd_section(p));
        assert(created_dirs(spec_amd_sections(ps)) =~= ps.map_values(
            |p: Seq<char>| spec_extension_dir(spec_platform_extension_name(p)),
        ));
    }
}

/// The overlay names, written as the tools write them.
proof fn lemma_generated_extensions_shape()
    ensures
        spec_generated_extensions() == seq![EXTENSION_PREFIX@ + "-common-ucm"@]
            + spec_sof_generations().map_values(|g: Seq<char>| spec_sof_extension_name(g))
            + seq![
            EXTENSION_PREFIX@ + "-avs"@,
            EXTENSION_PREFIX@ + "-avs-max98357a"@,
            EXTENSION_PREFIX@ + "-mt8138"@,
        ] + spec_amd_platforms().map_values(|p: Seq<char>| spec_platform_extension_name(p)),
{
    reveal_strlit("-common-ucm");
    reveal_strlit("common-ucm");
    reveal_strlit("-avs");
    reveal_strlit("avs");
    reveal_strlit("-avs-max98357a");
    reveal_strlit("avs-max98357a");
    reveal_strlit("-mt8138");
    reveal_strlit("mt8138");
    reveal_strlit("-");
    assert(prefixed("common-ucm"@) =~= EXTENSION_PREFIX@ + "-common-ucm"@);
    assert(prefixed("avs"@) =~= EXTENSION_PREFIX@ + "-avs"@);
    assert(prefixed("avs-max98357a"@) =~= EXTENSION_PREFIX@ + "-avs-max98357a"@);
    assert(prefixed("mt8138"@) =~= EXTENSION_PREFIX@ + "-mt8138"@);
    assert(spec_generated_extensions() =~= seq![EXTENSION_PREFIX@ + "-common-ucm"@]
        + spec_sof_generations().map_values(|g: Seq<char>| spec_sof_extension_name(g)) + seq![
        EXTENSION_PREFIX@ + "-avs"@,
        EXTENSION_PREFIX@ + "-avs-max98357a"@,
        EXTENSION_PREFIX@ + "-mt8138"@,
    ] + spec_amd_platforms().map_values(|p: Seq<char>| spec_platform_extension_name(p)));
}

proof fn lemma_fixed_sections_dirs()
    ensures
        created_dirs(spec_common_section()) == seq![
            spec_extension_dir(EXTENSION_PREFIX@ + "-common-ucm"@),
        ],
        created_dirs(spec_avs_section()) == seq![
            spec_extension_dir(EXTENSION_PREFIX@ + "-avs"@),
            spec_extension_dir(EXTENSION_PREFIX@ + "-avs-max98357a"@),
        ],
        created_dirs(spec_mt8183_section()) == seq![
            spec_extension_dir(EXTENSION_PREFIX@ + "-mt8138"@),
        ],
        created_dirs(spec_mendocino_firmware()) == Seq::<Seq<char>>::empty(),
{
    let common = EXTENSION_PREFIX@ + "-common-ucm"@;
    let common_tail = spec_common_section().subrange(3, 5);
    assert(spec_common_section() =~= spec_create_extension(common) + common_tail);
    lemma_created_dirs_none(common_tail);
    lemma_tail_creates_nothing(common, common_tail);

    let avs = EXTENSION_PREFIX@ + "-avs"@;
    let max = EXTENSION_PREFIX@ + "-avs-max98357a"@;
    let section = spec_avs_section();
    let avs_tail = section.subrange(3, 8);
    let max_tail = section.subrange(11, 13);
    assert(section.subrange(0, 8) =~= spec_create_extension(avs) + avs_tail);
    assert(section.subrange(8, 13) =~= spec_create_extension(max) + max_tail);
    assert(section =~= section.subrange(0, 8) + section.subrange(8, 13));
    lemma_created_dirs_none(avs_tail);
    lemma_created_dirs_none(max_tail);
    lemma_tail_creates_nothing(avs, avs_tail);
    lemma_tail_creates_nothing(max, max_tail);
    lemma_created_dirs_append(section.subrange(0, 8), section.subrange(8, 13));
    assert(created_dirs(section) =~= seq![spec_extension_dir(avs), spec_extension_dir(max)]);

    let mt = EXTENSION_PREFIX@ + "-mt8138"@;
    lemma_copy_dirs_create_nothing(
        strs_view(MT8183_UCM_DIRS@),
        "chromebook-ucm-conf/mt8183"@,
        spec_conf_d(mt),
    );
    lemma_section_dirs(
        mt,
        spec_conf_d(mt),
        spec_copy_dirs(strs_view(MT8183_UCM_DIRS@), "chromebook-ucm-conf/mt8183"@, spec_conf_d(mt)),
    );

    lemma_created_dirs_none(spec_mendocino_firmware());
}

/// The generate tool creates each directory that must not exist yet (with `CreateDir`,
/// which fails on an existing one) once only: first the build directory, then the directory
/// of each overlay it builds, in order, all distinct.
pub proof fn law_generate_creates_each_directory_once()
    ensures
        created_dirs(spec_generate_plan()) == seq![EXTENSIONS_DIR@]
            + spec_generated_extensions().map_values(|n: Seq<char>| spec_extension_dir(n)),
        created_dirs(spec_generate_plan()).no_duplicates(),
{
    let head = seq![
        FsOpView::RemoveDirAllIfPresent(EXTENSIONS_DIR@),
        FsOpView::CreateDir(EXTENSIONS_DIR@),
    ];
    assert(head.drop_last() =~= seq![FsOpView::RemoveDirAllIfPresent(EXTENSIONS_DIR@)]);
    lemma_created_dirs_none(head.drop_last());
    assert(created_dirs(head) =~= seq![EXTENSIONS_DIR@]);
    lemma_fixed_sections_dirs();
    lemma_sof_sections_dirs(spec_sof_generations());
    lemma_amd_sections_dirs(spec_amd_platforms());
    let a = head + spec_common_section();
    let b = a + spec_sof_sections(spec_sof_generations());
    let c = b + spec_avs_section();
    let d = c + spec_mt8183_section();
    let e = d + spec_amd_sections(spec_amd_platforms());
    let f = e + spec_mendocino_firmware();
    lemma_created_dirs_append(head, spec_common_section());
    lemma_created_dirs_append(a, spec_sof_sections(spec_sof_generations()));
    lemma_created_dirs_append(b, spec_avs_section());
    lemma_created_dirs_append(c, spec_mt8183_section());
    lemma_created_dirs_append(d, spec_amd_sections(spec_amd_platforms()));
    lemma_created_dirs_append(e, spec_mendocino_firmware());
    assert(f == spec_generate_plan());
    lemma_generated_extensions_shape();
    let names = spec_generated_extensions();
    let dirs = names.map_values(|n: Seq<char>| spec_extension_dir(n));
    assert(created_dirs(spec_generate_plan()) =~= seq![EXTENSIONS_DIR@] + dirs);
    law_generated_extensions_distinct();
    reveal_strlit("/");
    let all = seq![EXTENSIONS_DIR@] + dirs;
    assert forall|i: int, j: int| 0 <= i < all.len() && 0 <= j < all.len() && i != j implies all[i]
        != all[j] by {
        if i > 0 && j > 0 {
            assert(all[i] == spec_extension_dir(names[i - 1]));
            assert(all[j] == spec_extension_dir(names[j - 1]));
            if all[i] == all[j] {
                lemma_extension_dir_injective(names[i - 1], names[j - 1]);
            }
        } else if i == 0 {
            assert(all[j] == spec_extension_dir(names[j - 1]));
            assert(spec_extension_dir(names[j - 1]).len() > EXTENSIONS_DIR@.len());
        } else {
            assert(all[i] == spec_extension_dir(names[i - 1]));
            assert(spec_extension_dir(names[i - 1]).len() > EXTENSIONS_DIR@.len());
        }
    }
}

/// Whether a step mounts the OS release file as the extension-release file of an overlay
/// the generate tool builds.
pub open spec fn mounts_generated_overlay(step: ServiceStepView) -> bool {
    exists|k: int|
        0 <= k < spec_generated_extensions().len() && step == (ServiceStepView::Mount {
            source: OS_RELEASE@,
            target: spec_overlay_target(#[trigger] spec_generated_extensions()[k]),
        })
}

/// Whether a step mounts the OS release file somewhere.
pub open spec fn mounts_os_release(step: ServiceStepView) -> bool {
    step matches ServiceStepView::Mount { source, .. } && source == OS_RELEASE@
}

proof fn lemma_redirect_sources_differ()
    ensures
        "/usr/share/chromebook-audio/bsw-sof.conf"@ != OS_RELEASE@,
        "/usr/share/chromebook-audio/snd-sof.conf"@ != OS_RELEASE@,
        "/usr/share/chromebook-audio/snd-avs.conf"@ != OS_RELEASE@,
        "/usr/share/chromebook-audio/51-avs-dmic.lua"@ != OS_RELEASE@,
{
    reveal_strlit("/etc/os-release");
    reveal_strlit("/usr/share/chromebook-audio/bsw-sof.conf");
    reveal_strlit("/usr/share/chromebook-audio/snd-sof.conf");
    reveal_strlit("/usr/share/chromebook-audio/snd-avs.conf");
    reveal_strlit("/usr/share/chromebook-audio/51-avs-dmic.lua");
    assert(OS_RELEASE@[1] == 'e');
    assert("/usr/share/chromebook-audio/bsw-sof.conf"@[1] == 'u');
    assert("/usr/share/chromebook-audio/snd-sof.conf"@[1] == 'u');
    assert("/usr/share/chromebook-audio/snd-avs.conf"@[1] == 'u');
    assert("/usr/share/chromebook-audio/51-avs-dmic.lua"@[1] == 'u');
}

proof fn lemma_generated_at(k: int, name: Seq<char>)
    requires
        0 <= k < spec_generated_extensions().len(),
        spec_generated_extensions()[k] == name,
    ensures
        mounts_generated_overlay(
            ServiceStepView::Mount { source: OS_RELEASE@, target: spec_overlay_target(name) },
        ),
{
}

/// Every overlay the service enables is one the generate tool builds: whenever the service
/// mounts the OS release file, it mounts it as the extension-release file of such an overlay.
pub proof fn law_service_enables_only_generated_overlays(
    board_generation: Option<Seq<char>>,
    has_max98357a: bool,
    choice: Option<AudioChoice>,
    i: int,
)
    requires
        0 <= i < spec_service_steps(board_generation, has_max98357a, choice).len(),
        mounts_os_release(spec_service_steps(board_generation, has_max98357a, choice)[i]),
    ensures
        mounts_generated_overlay(spec_service_steps(board_generation, has_max98357a, choice)[i]),
{
    lemma_redirect_sources_differ();
    lemma_generated_extensions_shape();
    let names = spec_generated_extensions();
    let gens = spec_sof_generations();
    let plats = spec_amd_platforms();
    assert(gens =~= seq!["glk"@, "apl"@, "cml"@, "tgl"@, "jsl"@, "adl"@]);
    assert(plats =~= seq!["stoney"@, "picasso"@, "cezanne"@, "mendocino"@]);
    assert(names[0] == EXTENSION_PREFIX@ + "-common-ucm"@);
    assert(names[7] == EXTENSION_PREFIX@ + "-avs"@);
    assert(names[8] == EXTENSION_PREFIX@ + "-avs-max98357a"@);
    assert(names[9] == EXTENSION_PREFIX@ + "-mt8138"@);
    assert forall|k: int| 0 <= k < 6 implies names[1 + k] == spec_sof_extension_name(
        #[trigger] gens[k],
    ) by {}
    assert forall|k: int| 0 <= k < 4 implies names[10 + k] == spec_platform_extension_name(
        #[trigger] plats[k],
    ) by {}
    let steps = spec_service_steps(board_generation, has_max98357a, choice);
    let g = board_generation->0;
    let setup = spec_select_setup(spec_board_family(g), has_max98357a, choice);
    assert(board_generation is Some);
    assert(steps == spec_setup_steps(setup, g));
    match setup {
        AudioSetup::Bsw => {},
        AudioSetup::Sof => {
            let k: int = if g == "glk"@ {
                0
            } else if g == "apl"@ {
                1
            } else if g == "cml"@ {
                2
            } else if g == "tgl"@ {
                3
            } else if g == "jsl"@ {
                4
            } else {
                5
            };
            assert(gens[k] == g);
            if i == 2 {
                lemma_generated_at(0, names[0]);
            } else if i == 4 {
                lemma_generated_at(1 + k, names[1 + k]);
            }
        },
        AudioSetup::Avs { max98357a } => {
            if i == 2 {
                lemma_generated_at(7, names[7]);
            } else if i == 7 {
                lemma_generated_at(8, names[8]);
            }
        },
        AudioSetup::Amd => {
            let k: int = if g == "stoney"@ {
                0
            } else if g == "picasso"@ {
                1
            } else if g == "cezanne"@ {
                2
            } else {
                3
            };
            assert(plats[k] == g);
            if i == 2 {
                lemma_generated_at(0, names[0]);
            } else if i == 4 {
                lemma_generated_at(10 + k, names[10 + k]);
            }
        },
        AudioSetup::Mt8183 => {
            if i == 2 {
                lemma_generated_at(9, names[9]);
            }
        },
        AudioSetup::Unsupported => {},
    }
}

spec fn key3(s: Seq<char>) -> (int, char, char, char) {
    (s.len() as int, s[0], s[1], s[2])
}

proof fn lemma_generation_keys()
    ensures
        key3("bdw"@) == (3int, 'b', 'd', 'w'),
        key3("byt"@) == (3int, 'b', 'y', 't'),
        key3("bsw"@) == (3int, 'b', 's', 'w'),
        key3("skl"@) == (3int, 's', 'k', 'l'),
        key3("kbl"@) == (3int, 'k', 'b', 'l'),
        key3("apl"@) == (3int, 'a', 'p', 'l'),
        key3("glk"@) == (3int, 'g', 'l', 'k'),
        key3("cml"@) == (3int, 'c', 'm', 'l'),
        key3("tgl"@) == (3int, 't', 'g', 'l'),
        key3("jsl"@) == (3int, 'j', 's', 'l'),
        key3("adl"@) == (3int, 'a', 'd', 'l'),
        key3("stoney"@) == (6int, 's', 't', 'o'),
        key3("picasso"@) == (7int, 'p', 'i', 'c'),
        key3("cezanne"@) == (7int, 'c', 'e', 'z'),
        key3("mendocino"@) == (9int, 'm', 'e', 'n'),
        key3("mt8183"@) == (6int, 'm', 't', '8'),
{
    reveal_strlit("bdw");
    reveal_strlit("byt");
    reveal_strlit("bsw");
    reveal_strlit("skl");
    reveal_strlit("kbl");
    reveal_strlit("apl");
    reveal_strlit("glk");
    reveal_strlit("cml");
    reveal_strlit("tgl");
    reveal_strlit("jsl");
    reveal_strlit("adl");
    reveal_strlit("stoney");
    reveal_strlit("picasso");
    reveal_strlit("cezanne");
    reveal_strlit("mendocino");
    reveal_strlit("mt8183");
}

/// The service and the generate tool agree on the boards: a generation is one the service
/// may run Sound Open Firmware on exactly when the generate tool builds a Sound Open
/// Firmware overlay for it, and a platform gets the AMD setup exactly when the generate tool
/// builds an overlay for it.
pub proof fn law_families_match_generated_overlays(g: Seq<char>)
    ensures
        (spec_board_family(g) == BoardFamily::Sof || spec_board_family(g)
            == BoardFamily::ApolloLake) <==> spec_sof_generations().contains(g),
        spec_board_family(g) == BoardFamily::Amd <==> spec_amd_platforms().contains(g),
{
    lemma_generation_keys();
    let gens = spec_sof_generations();
    let plats = spec_amd_platforms();
    assert(gens =~= seq!["glk"@, "apl"@, "cml"@, "tgl"@, "jsl"@, "adl"@]);
    assert(plats =~= seq!["stoney"@, "picasso"@, "cezanne"@, "mendocino"@]);
    if gens.contains(g) {
        let k = choose|k: int| 0 <= k < gens.len() && gens[k] == g;
        assert(key3(g) == key3(gens[k]));
    }
    if plats.contains(g) {
        let k = choose|k: int| 0 <= k < plats.len() && plats[k] == g;
        assert(key3(g) == key3(plats[k]));
    }
    let f = spec_board_family(g);
    if f == BoardFamily::Sof || f == BoardFamily::ApolloLake {
        if g == "glk"@ {
            assert(gens[0] == g);
        } else if g == "apl"@ {
            assert(gens[1] == g);
        } else if g == "cml"@ {
            assert(gens[2] == g);
        } else if g == "tgl"@ {
            assert(gens[3] == g);
        } else if g == "jsl"@ {
            assert(gens[4] == g);
        } else {
            assert(gens[5] == g);
        }
    }
    if f == BoardFamily::Amd {
        if g == "stoney"@ {
            assert(plats[0] == g);
        } else if g == "picasso"@ {
            assert(plats[1] == g);
        } else if g == "cezanne"@ {
            assert(plats[2] == g);
        } else {
            assert(plats[3] == g);
        }
    }
}

/// Each family holds exactly the generations it is named for, and every other generation,
/// such as another MediaTek SoC, is unsupported: only bdw, byt and bsw are Braswell, skl and
/// kbl Skylake, apl Apollo Lake, glk, cml, tgl, jsl and adl Sound Open Firmware, the four AMD
/// platforms AMD, and mt8183 alone MediaTek.
pub proof fn law_family_members(g: Seq<char>)
    ensures
        spec_board_family(g) == BoardFamily::Braswell <==> (g == "bdw"@ || g == "byt"@ || g
            == "bsw"@),
        spec_board_family(g) == BoardFamily::Skylake <==> (g == "skl"@ || g == "kbl"@),
        spec_board_family(g) == BoardFamily::ApolloLake <==> g == "apl"@,
        spec_board_family(g) == BoardFamily::Sof <==> (g == "glk"@ || g == "cml"@ || g == "tgl"@
            || g == "jsl"@ || g == "adl"@),
        spec_board_family(g) == BoardFamily::Amd <==> spec_amd_platforms().contains(g),
        spec_board_family(g) == BoardFamily::Mediatek <==> g == "mt8183"@,
{
    lemma_generation_keys();
    law_families_match_generated_overlays(g);
    let kg = key3(g);
    if g == "bdw"@ || g == "byt"@ || g == "bsw"@ || g == "skl"@ || g == "kbl"@ || g == "apl"@
        || g == "glk"@ || g == "cml"@ || g == "tgl"@ || g == "jsl"@ || g == "adl"@ || g
        == "stoney"@ || g == "picasso"@ || g == "cezanne"@ || g == "mendocino"@ || g
        == "mt8183"@ {
        assert(kg == key3(g));
    }
}

proof fn lemma_post_install_copies_at(gs: Seq<Seq<char>>)
    ensures
        spec_post_install_copies(gs).len() == gs.len(),
        forall|k: int|
            0 <= k < gs.len() ==> #[trigger] spec_post_install_copies(gs)[k]
                == spec_copy_os_release("chromebook-sof-"@ + gs[k]),
    decreases gs.len(),
{
    if gs.len() > 0 {
        lemma_post_install_copies_at(gs.drop_last());
    }
}

proof fn lemma_post_install_target_injective(a: Seq<char>, b: Seq<char>)
    requires
        spec_post_install_target(a) == spec_post_install_target(b),
    ensures
        a == b,
{
    let p = "/etc/extensions/"@;
    let m = "/usr/lib/extension-release.d/.extension-release."@;
    let ta = spec_post_install_target(a);
    let tb = spec_post_install_target(b);
    assert(ta.len() == p.len() + 2 * a.len() + m.len());
    assert(tb.len() == p.len() + 2 * b.len() + m.len());
    assert(a.len() == b.len());
    assert(ta.subrange(p.len() as int, (p.len() + a.len()) as int) =~= a);
    assert(tb.subrange(p.len() as int, (p.len() + b.len()) as int) =~= b);
}

/// The post-install tool copies the OS release file first into the common Sound Open
/// Firmware overlay and then, in order, into that of each generation of
/// `SOF_BOARD_GENERATIONS`, and never twice to the same file.
pub proof fn law_post_install_copies_each_generation()
    ensures
        spec_post_install_plan().len() == 1 + SOF_BOARD_GENERATIONS@.len(),
        spec_post_install_plan()[0] == spec_copy_os_release("chromebook-sof-common"@),
        forall|k: int|
            0 <= k < SOF_BOARD_GENERATIONS@.len() ==> spec_post_install_plan()[k + 1]
                == spec_copy_os_release("chromebook-sof-"@ + (#[trigger] SOF_BOARD_GENERATIONS@[k])@),
        forall|i: int, j: int|
            0 <= i < j < spec_post_install_plan().len() ==> op_target(
                #[trigger] spec_post_install_plan()[i],
            ) != op_target(#[trigger] spec_post_install_plan()[j]),
{
    lemma_generation_keys();
    reveal_strlit("chromebook-sof-");
    reveal_strlit("chromebook-sof-common");
    let gens = spec_sof_generations();
    assert(gens =~= seq!["glk"@, "apl"@, "cml"@, "tgl"@, "jsl"@, "adl"@]);
    lemma_post_install_copies_at(gens);
    let plan = spec_post_install_plan();
    let names = seq!["chromebook-sof-common"@] + gens.map_values(
        |g: Seq<char>| "chromebook-sof-"@ + g,
    );
    assert forall|k: int| 0 <= k < plan.len() implies #[trigger] plan[k] == spec_copy_os_release(
        names[k],
    ) by {
        if k > 0 {
            assert(plan[k] == spec_post_install_copies(gens)[k - 1]);
        }
    }
    assert forall|k: int| 0 <= k < SOF_BOARD_GENERATIONS@.len() implies plan[k + 1]
        == spec_copy_os_release("chromebook-sof-"@ + (#[trigger] SOF_BOARD_GENERATIONS@[k])@) by {
        assert(plan[k + 1] == spec_copy_os_release(names[k + 1]));
        assert(gens[k] == SOF_BOARD_GENERATIONS@[k]@);
    }
    let pre = "chromebook-sof-"@;
    assert forall|i: int, j: int| 0 <= i < j < plan.len() implies op_target(#[trigger] plan[i])
        != op_target(#[trigger] plan[j]) by {
        assert(plan[i] == spec_copy_os_release(names[i]));
        assert(plan[j] == spec_copy_os_release(names[j]));
        if op_target(plan[i]) == op_target(plan[j]) {
            lemma_post_install_target_injective(names[i], names[j]);
            if i == 0 {
                assert(names[0].len() == 21);
                assert(names[j].len() == pre.len() + gens[j - 1].len());
                assert(key3(gens[j - 1]).0 == 3);
            } else {
                let gi = gens[i - 1];
                let gj = gens[j - 1];
                assert(names[i] == pre + gi);
                assert(names[j] == pre + gj);
                assert((pre + gi).subrange(pre.len() as int, (pre + gi).len() as int) =~= gi);
                assert((pre + gj).subrange(pre.len() as int, (pre + gj).len() as int) =~= gj);
                assert(gi == gj);
                assert(key3(gi) == key3(gj));
            }
        }
    }
}

/// The max98357a topology in the firmware directory of the AVS overlay.
pub open spec fn spec_avs_topology_file() -> Seq<char> {
    spec_avs_firmware(EXTENSION_PREFIX@ + "-avs"@) + "/max98357a-tplg.bin"@
}

/// No operation of `ops` creates or writes `f` or a directory that holds it.
pub open spec fn leaves_alone(ops: Seq<FsOpView>, f: Seq<char>) -> bool {
    forall|j: int|
        0 <= j < ops.len() && (#[trigger] op_target(ops[j])) is Some ==> !under(
            f,
            op_target(ops[j])->0,
        )
}

/// Every operation of `ops` creates or writes at `d` or below it.
pub open spec fn all_under(ops: Seq<FsOpView>, d: Seq<char>) -> bool {
    forall|j: int|
        0 <= j < ops.len() && (#[trigger] op_target(ops[j])) is Some ==> under(
            op_target(ops[j])->0,
            d,
        )
}

proof fn lemma_under_trans(p: Seq<char>, t: Seq<char>, d: Seq<char>)
    requires
        under(p, t),
        under(t, d),
    ensures
        under(p, d),
{
    reveal_strlit("/");
    let sl = "/"@;
    assert(sl =~= seq!['/']);
    if p != t && t != d {
        let n = (d + sl).len() as int;
        assert(t.subrange(0, n) =~= d + sl);
        assert(p.subrange(0, (t + sl).len() as int) =~= t + sl);
        assert(p.subrange(0, n) =~= (t + sl).subrange(0, n));
        assert(p.subrange(0, n) =~= d + sl);
    } else if p == t {
    } else {
        assert(p.subrange(0, (t + sl).len() as int) =~= t + sl);
    }
}

proof fn lemma_all_under_weaken(ops: Seq<FsOpView>, t: Seq<char>, d: Seq<char>)
    requires
        all_under(ops, t),
        under(t, d),
    ensures
        all_under(ops, d),
{
    assert forall|j: int| 0 <= j < ops.len() && (#[trigger] op_target(ops[j])) is Some implies under(
        op_target(ops[j])->0,
        d,
    ) by {
        lemma_under_trans(op_target(ops[j])->0, t, d);
    }
}

proof fn lemma_all_under_append(a: Seq<FsOpView>, b: Seq<FsOpView>, d: Seq<char>)
    requires
        all_under(a, d),
        all_under(b, d),
    ensures
        all_under(a + b, d),
{
    assert forall|j: int|
        0 <= j < (a + b).len() && (#[trigger] op_target((a + b)[j])) is Some implies under(
        op_target((a + b)[j])->0,
        d,
    ) by {
        if j < a.len() {
            assert((a + b)[j] == a[j]);
        } else {
            assert((a + b)[j] == b[j - a.len()]);
        }
    }
}

proof fn lemma_leaves_alone_append(a: Seq<FsOpView>, b: Seq<FsOpView>, f: Seq<char>)
    requires
        leaves_alone(a, f),
        leaves_alone(b, f),
    ensures
        leaves_alone(a + b, f),
{
    assert forall|j: int|
        0 <= j < (a + b).len() && (#[trigger] op_target((a + b)[j])) is Some implies !under(
        f,
        op_target((a + b)[j])->0,
    ) by {
        if j < a.len() {
            assert((a + b)[j] == a[j]);
        } else {
            assert((a + b)[j] == b[j - a.len()]);
        }
    }
}

proof fn lemma_create_extension_under(n: Seq<char>)
    ensures
        all_under(spec_create_extension(n), spec_extension_dir(n)),
{
    reveal_strlit("/usr/lib/extension-release.d");
    reveal_strlit("/extension-release.");
    let d = spec_extension_dir(n);
    let r1 = "/usr/lib/extension-release.d"@;
    let r2 = r1 + "/extension-release."@ + n;
    assert(r1[0] == '/');
    assert(r2[0] == '/');
    assert(d + r2 =~= spec_release_file(n));
    lemma_under_own(d, r1);
    lemma_under_own(d, r2);
    let ops = spec_create_extension(n);
    assert forall|j: int| 0 <= j < ops.len() && (#[trigger] op_target(ops[j])) is Some implies under(
        op_target(ops[j])->0,
        d,
    ) by {
        if j == 2 {
            assert(op_target(ops[j])->0 == d + r2);
        }
    }
}

proof fn lemma_copy_dirs_under(dirs: Seq<Seq<char>>, from: Seq<char>, to: Seq<char>)
    ensures
        all_under(spec_copy_dirs(dirs, from, to), to),
    decreases dirs.len(),
{
    if dirs.len() > 0 {
        lemma_copy_dirs_under(dirs.drop_last(), from, to);
        reveal_strlit("/");
        let rest = "/"@ + dirs.last();
        assert(rest[0] == '/');
        assert(spec_path(to, dirs.last()) =~= to + rest);
        lemma_under_own(to, rest);
        let ops = spec_copy_dirs(dirs, from, to);
        let prev = spec_copy_dirs(dirs.drop_last(), from, to);
        assert(ops.drop_last() == prev);
        assert forall|j: int|
            0 <= j < ops.len() && (#[trigger] op_target(ops[j])) is Some implies under(
            op_target(ops[j])->0,
            to,
        ) by {
            if j < prev.len() {
                assert(ops[j] == prev[j]);
            }
        }
    }
}

/// The operations of a section of overlay `n`: its skeleton, its UCM directory and copies
/// into that directory, all lie below the overlay's directory.
proof fn lemma_section_under(n: Seq<char>, dirs: Seq<Seq<char>>, from: Seq<char>)
    ensures
        all_under(
            spec_create_extension(n) + seq![FsOpView::CreateDirAll(spec_conf_d(n))]
                + spec_copy_dirs(dirs, from, spec_conf_d(n)),
            spec_extension_dir(n),
        ),
{
    reveal_strlit("/usr/share/alsa/ucm2/conf.d");
    let d = spec_extension_dir(n);
    let lit = "/usr/share/alsa/ucm2/conf.d"@;
    assert(lit[0] == '/');
    lemma_under_own(d, lit);
    lemma_create_extension_under(n);
    let one = seq![FsOpView::CreateDirAll(spec_conf_d(n))];
    assert(all_under(one, d));
    lemma_copy_dirs_under(dirs, from, spec_conf_d(n));
    lemma_all_under_weaken(spec_copy_dirs(dirs, from, spec_conf_d(n)), spec_conf_d(n), d);
    lemma_all_under_append(spec_create_extension(n), one, d);
    lemma_all_under_append(spec_create_extension(n) + one, spec_copy_dirs(dirs, from, spec_conf_d(n)), d);
}

proof fn lemma_avs_name_facts()
    ensures
        !(EXTENSION_PREFIX@ + "-avs"@).contains('/'),
        (EXTENSION_PREFIX@ + "-avs"@).len() == EXTENSION_PREFIX@.len() + 4,
        spec_avs_topology_file() == spec_extension_dir(EXTENSION_PREFIX@ + "-avs"@) + (
        "/usr/lib/firmware/intel/avs"@ + "/max98357a-tplg.bin"@),
        ("/usr/lib/firmware/intel/avs"@ + "/max98357a-tplg.bin"@)[0] == '/',
{
    reveal_strlit("chromebook-audio");
    reveal_strlit("-avs");
    reveal_strlit("/usr/lib/firmware/intel/avs");
    reveal_strlit("/max98357a-tplg.bin");
    assert(spec_avs_topology_file() =~= spec_extension_dir(EXTENSION_PREFIX@ + "-avs"@) + (
    "/usr/lib/firmware/intel/avs"@ + "/max98357a-tplg.bin"@));
}

/// Whatever only creates or writes below the directory of another overlay, whose name holds
/// no slash, leaves the AVS overlay's max98357a topology alone.
proof fn lemma_other_overlay_leaves_topology(ops: Seq<FsOpView>, n: Seq<char>)
    requires
        all_under(ops, spec_extension_dir(n)),
        n.len() != EXTENSION_PREFIX@.len() + 4,
        !n.contains('/'),
    ensures
        leaves_alone(ops, spec_avs_topology_file()),
{
    lemma_avs_name_facts();
    let avs = EXTENSION_PREFIX@ + "-avs"@;
    let rest = "/usr/lib/firmware/intel/avs"@ + "/max98357a-tplg.bin"@;
    let f = spec_avs_topology_file();
    lemma_not_under(n, avs, rest);
    assert forall|j: int| 0 <= j < ops.len() && (#[trigger] op_target(ops[j])) is Some implies !under(
        f,
        op_target(ops[j])->0,
    ) by {
        if under(f, op_target(ops[j])->0) {
            lemma_under_trans(f, op_target(ops[j])->0, spec_extension_dir(n));
        }
    }
}

proof fn lemma_amd_sections_leave_topology(ps: Seq<Seq<char>>)
    requires
        forall|k: int|
            0 <= k < ps.len() ==> !(#[trigger] ps[k]).contains('/') && ps[k].len() != 3,
    ensures
        leaves_alone(spec_amd_sections(ps), spec_avs_topology_file()),
    decreases ps.len(),
{
    reveal_strlit("-");
    if ps.len() == 0 {
    } else {
        let p = ps.last();
        lemma_amd_sections_leave_topology(ps.drop_last());
        let n = spec_platform_extension_name(p);
        lemma_section_under(n, spec_amd_ucm_dirs(p), "chromebook-ucm-conf/"@ + p);
        assert(!n.contains('/')) by {
            reveal_strlit("chromebook-audio");
            assert(n =~= EXTENSION_PREFIX@ + "-"@ + p);
            assert forall|i: int| 0 <= i < n.len() implies n[i] != '/' by {
                if i >= EXTENSION_PREFIX@.len() + 1 {
                    assert(n[i] == p[i - EXTENSION_PREFIX@.len() - 1]);
                }
            }
        }
        lemma_other_overlay_leaves_topology(spec_amd_section(p), n);
        lemma_leaves_alone_append(spec_amd_sections(ps.drop_last()), spec_amd_section(p), spec_avs_topology_file());
    }
}

proof fn lemma_tail_after_removal_leaves_topology()
    ensures
        leaves_alone(
            spec_avs_section().subrange(8, 13) + spec_mt8183_section() + spec_amd_sections(
                spec_amd_platforms(),
            ) + spec_mendocino_firmware(),
            spec_avs_topology_file(),
        ),
{
    reveal_strlit("chromebook-audio");
    reveal_strlit("-avs-max98357a");
    reveal_strlit("-mt8138");
    reveal_strlit("-mendocino");
    reveal_strlit("/usr/lib/firmware/intel/avs");
    reveal_strlit("/max98357a-tplg.bin");
    reveal_strlit("/usr/lib/firmware/amd/sof/community");
    reveal_strlit("/usr/lib/firmware/amd/sof-tplg");
    let f = spec_avs_topology_file();
    // The overlay of the max98357a topology.
    let max = EXTENSION_PREFIX@ + "-avs-max98357a"@;
    let dmax = spec_extension_dir(max);
    let fw = "/usr/lib/firmware/intel/avs"@;
    let file = "/max98357a-tplg.bin"@;
    assert(fw[0] == '/');
    assert(file[0] == '/');
    lemma_under_own(dmax, fw);
    lemma_under_own(dmax + fw, file);
    lemma_under_trans(dmax + fw + file, dmax + fw, dmax);
    let tail = spec_avs_section().subrange(8, 13);
    let extra = tail.subrange(3, 5);
    assert(tail =~= spec_create_extension(max) + extra);
    assert(all_under(extra, dmax));
    lemma_create_extension_under(max);
    lemma_all_under_append(spec_create_extension(max), extra, dmax);
    assert(!max.contains('/'));
    lemma_other_overlay_leaves_topology(tail, max);
    // The mt8183 overlay.
    let mt = EXTENSION_PREFIX@ + "-mt8138"@;
    lemma_section_under(mt, strs_view(MT8183_UCM_DIRS@), "chromebook-ucm-conf/mt8183"@);
    assert(!mt.contains('/'));
    lemma_other_overlay_leaves_topology(spec_mt8183_section(), mt);
    // The AMD overlays.
    let plats = spec_amd_platforms();
    reveal_strlit("stoney");
    reveal_strlit("picasso");
    reveal_strlit("cezanne");
    reveal_strlit("mendocino");
    assert(plats =~= seq!["stoney"@, "picasso"@, "cezanne"@, "mendocino"@]);
    assert forall|k: int| 0 <= k < plats.len() implies !(#[trigger] plats[k]).contains('/')
        && plats[k].len() != 3 by {
        if k == 0 {
            assert(!"stoney"@.contains('/'));
        } else if k == 1 {
            assert(!"picasso"@.contains('/'));
        } else if k == 2 {
            assert(!"cezanne"@.contains('/'));
        } else {
            assert(!"mendocino"@.contains('/'));
        }
    }
    lemma_amd_sections_leave_topology(plats);
    // The firmware of the mendocino overlay.
    let m = EXTENSION_PREFIX@ + "-mendocino"@;
    let dm = spec_extension_dir(m);
    let r1 = "/usr/lib/firmware/amd/sof/community"@;
    let r2 = "/usr/lib/firmware/amd/sof-tplg"@;
    assert(r1[0] == '/');
    assert(r2[0] == '/');
    lemma_under_own(dm, r1);
    lemma_under_own(dm, r2);
    assert(all_under(spec_mendocino_firmware(), dm));
    assert(!m.contains('/'));
    lemma_other_overlay_leaves_topology(spec_mendocino_firmware(), m);
    lemma_leaves_alone_append(tail, spec_mt8183_section(), f);
    lemma_leaves_alone_append(tail + spec_mt8183_section(), spec_amd_sections(plats), f);
    lemma_leaves_alone_append(
        tail + spec_mt8183_section() + spec_amd_sections(plats),
        spec_mendocino_firmware(),
        f,
    );
}

/// The AVS overlay ends up without the max98357a topology, which belongs to an overlay of
/// its own: the generate tool removes that file from the AVS firmware directory after copying
/// the AVS topologies there, and no later operation creates or writes that file or any
/// directory that would hold it.
pub proof fn law_avs_overlay_ends_without_max98357a_topology()
    ensures
        exists|c: int, r: int|
            0 <= c < r < spec_generate_plan().len() && spec_generate_plan()[c]
                == (FsOpView::CopyTree {
                from: "conf/avs/tplg"@,
                to: spec_avs_firmware(EXTENSION_PREFIX@ + "-avs"@),
            }) && spec_generate_plan()[r] == FsOpView::RemoveFile(spec_avs_topology_file())
                && leaves_alone(
                spec_generate_plan().subrange(r + 1, spec_generate_plan().len() as int),
                spec_avs_topology_file(),
            ),
{
    let head = seq![
        FsOpView::RemoveDirAllIfPresent(EXTENSIONS_DIR@),
        FsOpView::CreateDir(EXTENSIONS_DIR@),
    ];
    let x = head + spec_common_section() + spec_sof_sections(spec_sof_generations());
    let avs = spec_avs_section();
    let y = spec_mt8183_section() + spec_amd_sections(spec_amd_platforms())
        + spec_mendocino_firmware();
    let plan = spec_generate_plan();
    assert(plan =~= x + avs + y);
    let c: int = x.len() as int + 6;
    let r: int = x.len() as int + 7;
    assert(plan[c] == avs[6]);
    assert(plan[r] == avs[7]);
    assert(plan.subrange(r + 1, plan.len() as int) =~= avs.subrange(8, 13) + spec_mt8183_section()
        + spec_amd_sections(spec_amd_platforms()) + spec_mendocino_firmware());
    lemma_tail_after_removal_leaves_topology();
    assert(0 <= c < r < plan.len() && plan[c] == (FsOpView::CopyTree {
        from: "conf/avs/tplg"@,
        to: spec_avs_firmware(EXTENSION_PREFIX@ + "-avs"@),
    }) && plan[r] == FsOpView::RemoveFile(spec_avs_topology_file()) && leaves_alone(
        plan.subrange(r + 1, plan.len() as int),
        spec_avs_topology_file(),
    ));
}

/// The file or directory tree an operation writes, if it writes one.
pub open spec fn op_writes(op: FsOpView) -> Option<Seq<char>> {
    match op {
        FsOpView::WriteEmpty(p) => Some(p),
        FsOpView::CopyFile { to, .. } => Some(to),
        FsOpView::CopyTree { to, .. } => Some(to),
        _ => None,
    }
}

/// The directory an operation creates, if it creates one.
pub open spec fn op_creates(op: FsOpView) -> Option<Seq<char>> {
    match op {
        FsOpView::CreateDir(p) => Some(p),
        FsOpView::CreateDirAll(p) => Some(p),
        _ => None,
    }
}

/// Whether operation `i` of `ops` creates a directory at or above `t`.
pub open spec fn creates_above(ops: Seq<FsOpView>, i: int, t: Seq<char>) -> bool {
    op_creates(ops[i]) is Some && under(t, op_creates(ops[i])->0)
}

/// Every write of `ops` lands at or below a directory that an earlier operation created.
pub open spec fn writes_into_created(ops: Seq<FsOpView>) -> bool {
    forall|j: int|
        0 <= j < ops.len() && (#[trigger] op_writes(ops[j])) is Some ==> exists|i: int|
            0 <= i < j && creates_above(ops, i, op_writes(ops[j])->0)
}

proof fn lemma_writes_into_created_append(a: Seq<FsOpView>, b: Seq<FsOpView>)
    requires
        writes_into_created(a),
        writes_into_created(b),
    ensures
        writes_into_created(a + b),
{
    let ab = a + b;
    assert forall|j: int| 0 <= j < ab.len() && (#[trigger] op_writes(ab[j])) is Some implies exists|
        i: int,
    | 0 <= i < j && creates_above(ab, i, op_writes(ab[j])->0) by {
        if j < a.len() {
            assert(ab[j] == a[j]);
            let i = choose|i: int| 0 <= i < j && creates_above(a, i, op_writes(a[j])->0);
            assert(ab[i] == a[i]);
            assert(creates_above(ab, i, op_writes(ab[j])->0));
        } else {
            let jb = j - a.len();
            assert(ab[j] == b[jb]);
            let i = choose|i: int| 0 <= i < jb && creates_above(b, i, op_writes(b[jb])->0);
            assert(ab[i + a.len()] == b[i]);
            assert(creates_above(ab, i + a.len(), op_writes(ab[j])->0));
        }
    }
}

proof fn lemma_no_writes(ops: Seq<FsOpView>)
    requires
        forall|j: int| 0 <= j < ops.len() ==> (#[trigger] op_writes(ops[j])) is None,
    ensures
        writes_into_created(ops),
{
}

proof fn lemma_create_extension_writes(n: Seq<char>)
    ensures
        writes_into_created(spec_create_extension(n)),
{
    reveal_strlit("/extension-release.");
    let ops = spec_create_extension(n);
    let rd = spec_extension_dir(n) + "/usr/lib/extension-release.d"@;
    let rest = "/extension-release."@ + n;
    assert(rest[0] == '/');
    assert(spec_release_file(n) =~= rd + rest);
    lemma_under_own(rd, rest);
    assert(creates_above(ops, 1, op_writes(ops[2])->0));
}

/// A section: a skeleton, a directory `conf_d` created next, then copies below `conf_d`.
proof fn lemma_section_writes(n: Seq<char>, conf_d: Seq<char>, copies: Seq<FsOpView>)
    requires
        all_under(copies, conf_d),
        forall|j: int|
            0 <= j < copies.len() ==> (#[trigger] op_writes(copies[j])) == op_target(copies[j]),
    ensures
        writes_into_created(
            spec_create_extension(n) + seq![FsOpView::CreateDirAll(conf_d)] + copies,
        ),
{
    lemma_create_extension_writes(n);
    let one = seq![FsOpView::CreateDirAll(conf_d)];
    lemma_no_writes(one);
    lemma_writes_into_created_append(spec_create_extension(n), one);
    let pre = spec_create_extension(n) + one;
    let ops = pre + copies;
    assert(pre[3] == FsOpView::CreateDirAll(conf_d));
    assert forall|j: int| 0 <= j < ops.len() && (#[trigger] op_writes(ops[j])) is Some implies exists|
        i: int,
    | 0 <= i < j && creates_above(ops, i, op_writes(ops[j])->0) by {
        if j < pre.len() {
            assert(ops[j] == pre[j]);
            let i = choose|i: int| 0 <= i < j && creates_above(pre, i, op_writes(pre[j])->0);
            assert(ops[i] == pre[i]);
            assert(creates_above(ops, i, op_writes(ops[j])->0));
        } else {
            assert(ops[j] == copies[j - 4]);
            assert(op_target(copies[j - 4]) is Some);
            assert(ops[3] == pre[3]);
            assert(creates_above(ops, 3, op_writes(ops[j])->0));
        }
    }
}

proof fn lemma_copy_dirs_write_targets(dirs: Seq<Seq<char>>, from: Seq<char>, to: Seq<char>)
    ensures
        forall|j: int|
            0 <= j < spec_copy_dirs(dirs, from, to).len() ==> (#[trigger] op_writes(
                spec_copy_dirs(dirs, from, to)[j],
            )) == op_target(spec_copy_dirs(dirs, from, to)[j]) && op_target(
                spec_copy_dirs(dirs, from, to)[j],
            ) is Some,
    decreases dirs.len(),
{
    if dirs.len() > 0 {
        lemma_copy_dirs_write_targets(dirs.drop_last(), from, to);
        let ops = spec_copy_dirs(dirs, from, to);
        let prev = spec_copy_dirs(dirs.drop_last(), from, to);
        assert forall|j: int| 0 <= j < ops.len() implies (#[trigger] op_writes(ops[j])) == op_target(
            ops[j],
        ) && op_target(ops[j]) is Some by {
            if j < prev.len() {
                assert(ops[j] == prev[j]);
            }
        }
    }
}

proof fn lemma_ucm_section_writes(n: Seq<char>, dirs: Seq<Seq<char>>, from: Seq<char>)
    ensures
        writes_into_created(
            spec_create_extension(n) + seq![FsOpView::CreateDirAll(spec_conf_d(n))]
                + spec_copy_dirs(dirs, from, spec_conf_d(n)),
        ),
{
    lemma_copy_dirs_under(dirs, from, spec_conf_d(n));
    lemma_copy_dirs_write_targets(dirs, from, spec_conf_d(n));
    lemma_section_writes(n, spec_conf_d(n), spec_copy_dirs(dirs, from, spec_conf_d(n)));
}

proof fn lemma_sof_sections_writes(gs: Seq<Seq<char>>)
    ensures
        writes_into_created(spec_sof_sections(gs)),
    decreases gs.len(),
{
    if gs.len() > 0 {
        let g = gs.last();
        lemma_sof_sections_writes(gs.drop_last());
        lemma_ucm_section_writes(
            spec_sof_extension_name(g),
            spec_sof_ucm_dirs(g),
            "chromebook-ucm-conf/"@ + g,
        );
        lemma_writes_into_created_append(spec_sof_sections(gs.drop_last()), spec_sof_section(g));
    }
}

proof fn lemma_amd_sections_writes(ps: Seq<Seq<char>>)
    ensures
        writes_into_created(spec_amd_sections(ps)),
    decreases ps.len(),
{
    if ps.len() > 0 {
        let p = ps.last();
        lemma_amd_sections_writes(ps.drop_last());
        lemma_ucm_section_writes(
            spec_platform_extension_name(p),
            spec_amd_ucm_dirs(p),
            "chromebook-ucm-conf/"@ + p,
        );
        lemma_writes_into_created_append(spec_amd_sections(ps.drop_last()), spec_amd_section(p));
    }
}

proof fn lemma_fixed_sections_writes()
    ensures
        writes_into_created(spec_common_section()),
        writes_into_created(spec_avs_section()),
        writes_into_created(spec_mt8183_section()),
        writes_into_created(spec_mendocino_firmware()),
{
    reveal_strlit("/usr/share/alsa/ucm2/common");
    reveal_strlit("/usr/share/alsa/ucm2");
    reveal_strlit("/common");
    reveal_strlit("/max98357a-tplg.bin");
    // The common UCM overlay.
    let common = EXTENSION_PREFIX@ + "-common-ucm"@;
    let dc = spec_extension_dir(common);
    let cs = spec_common_section();
    assert(dc + "/usr/share/alsa/ucm2/common"@ =~= (dc + "/usr/share/alsa/ucm2"@) + "/common"@);
    assert("/common"@[0] == '/');
    lemma_under_own(dc + "/usr/share/alsa/ucm2"@, "/common"@);
    lemma_create_extension_writes(common);
    let ctail = cs.subrange(3, 5);
    assert(cs =~= spec_create_extension(common) + ctail);
    assert(creates_above(ctail, 0, op_writes(ctail[1])->0));
    assert(writes_into_created(ctail));
    lemma_writes_into_created_append(spec_create_extension(common), ctail);
    // The AVS overlays.
    let avs = EXTENSION_PREFIX@ + "-avs"@;
    let max = EXTENSION_PREFIX@ + "-avs-max98357a"@;
    let sec = spec_avs_section();
    let t1 = sec.subrange(3, 8);
    let t2 = sec.subrange(11, 13);
    assert(sec =~= spec_create_extension(avs) + t1 + spec_create_extension(max) + t2);
    assert(creates_above(t1, 0, op_writes(t1[1])->0));
    assert(creates_above(t1, 2, op_writes(t1[3])->0));
    assert(writes_into_created(t1));
    assert("/max98357a-tplg.bin"@[0] == '/');
    lemma_under_own(spec_avs_firmware(max), "/max98357a-tplg.bin"@);
    assert(creates_above(t2, 0, op_writes(t2[1])->0));
    assert(writes_into_created(t2));
    lemma_create_extension_writes(avs);
    lemma_create_extension_writes(max);
    lemma_writes_into_created_append(spec_create_extension(avs), t1);
    lemma_writes_into_created_append(spec_create_extension(avs) + t1, spec_create_extension(max));
    lemma_writes_into_created_append(spec_create_extension(avs) + t1 + spec_create_extension(max), t2);
    // The mt8183 overlay.
    let mt = EXTENSION_PREFIX@ + "-mt8138"@;
    lemma_ucm_section_writes(mt, strs_view(MT8183_UCM_DIRS@), "chromebook-ucm-conf/mt8183"@);
    // The mendocino firmware.
    let fwops = spec_mendocino_firmware();
    assert(creates_above(fwops, 0, op_writes(fwops[2])->0));
    assert(creates_above(fwops, 1, op_writes(fwops[3])->0));
}

/// The generate tool writes only into directories it created before: every file it writes
/// and every tree it copies lands at or below a directory that an earlier operation created.
pub proof fn law_generate_writes_into_created_directories()
    ensures
        writes_into_created(spec_generate_plan()),
{
    let head = seq![
        FsOpView::RemoveDirAllIfPresent(EXTENSIONS_DIR@),
        FsOpView::CreateDir(EXTENSIONS_DIR@),
    ];
    lemma_no_writes(head);
    lemma_fixed_sections_writes();
    lemma_sof_sections_writes(spec_sof_generations());
    lemma_amd_sections_writes(spec_amd_platforms());
    let a = head + spec_common_section();
    let b = a + spec_sof_sections(spec_sof_generations());
    let c = b + spec_avs_section();
    let d = c + spec_mt8183_section();
    let e = d + spec_amd_sections(spec_amd_platforms());
    lemma_writes_into_created_append(head, spec_common_section());
    lemma_writes_into_created_append(a, spec_sof_sections(spec_sof_generations()));
    lemma_writes_into_created_append(b, spec_avs_section());
    lemma_writes_into_created_append(c, spec_mt8183_section());
    lemma_writes_into_created_append(d, spec_amd_sections(spec_amd_platforms()));
    lemma_writes_into_created_append(e, spec_mendocino_firmware());
    assert(e + spec_mendocino_firmware() == spec_generate_plan());
}

/// The setup tool writes only into directories it created before.
pub proof fn law_setup_writes_into_created_directories(
    extension_dir: Seq<char>,
    extension_name: Seq<char>,
)
    ensures
        writes_into_created(spec_setup_plan(extension_dir, extension_name)),
{
    reveal_strlit("/extension-release.");
    let ops = spec_setup_plan(extension_dir, extension_name);
    let rd = extension_dir + "/usr/lib/extension-release.d"@;
    let rest = "/extension-release."@ + extension_name;
    assert(rest[0] == '/');
    assert(rd + "/extension-release."@ + extension_name =~= rd + rest);
    lemma_under_own(rd, rest);
    assert(creates_above(ops, 1, op_writes(ops[2])->0));
    assert(creates_above(ops, 4, op_writes(ops[5])->0));
    assert(creates_above(ops, 7, op_writes(ops[8])->0));
}

} // verus!
