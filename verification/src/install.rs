use vstd::prelude::*;

use crate::names::{
    get_avs_extension_name, get_avs_max98357a_extension_name, get_common_ucm_extension_name,
    get_mt8138_extension_name, platform_extension_name, sof_extension_name,
    spec_platform_extension_name, spec_sof_extension_name, EXTENSION_PREFIX,
    SOF_BOARD_GENERATIONS,
};
use crate::service::OS_RELEASE;
use crate::text::{join2, join3, owned, str_equal};

verus! {

/// Directory, relative to the working directory, in which the generate tool builds the
/// overlays.
pub const EXTENSIONS_DIR: &'static str = "extensions";

/// The AMD platforms that get an overlay of their own.
pub const AMD_PLATFORMS: [&'static str; 4] = ["stoney", "picasso", "cezanne", "mendocino"];

/// The UCM configurations of the mt8183 overlay.
pub const MT8183_UCM_DIRS: [&'static str; 2] = ["mt8183_da7219_r", "mt8183_mt6358_t"];

/// One file-system operation of the install tools, or a line they print, in order.
#[derive(Debug, PartialEq, Eq)]
pub enum FsOp {
    /// Print a line.
    Log(String),
    /// Remove a directory tree; a failure (such as its absence) is ignored.
    RemoveDirAllIfPresent(String),
    /// Create one directory; its parent must exist and it must not.
    CreateDir(String),
    /// Create a directory and any missing parents.
    CreateDirAll(String),
    /// Create or truncate a file so that it is empty.
    WriteEmpty(String),
    /// Copy one file.
    CopyFile { from: String, to: String },
    /// Copy a directory tree.
    CopyTree { from: String, to: String },
    /// Remove one file.
    RemoveFile(String),
    /// Run a program with arguments and wait for it.
    Run { program: String, args: Vec<String> },
}

/// `FsOp` with its strings taken as character sequences.
pub enum FsOpView {
    Log(Seq<char>),
    RemoveDirAllIfPresent(Seq<char>),
    CreateDir(Seq<char>),
    CreateDirAll(Seq<char>),
    WriteEmpty(Seq<char>),
    CopyFile { from: Seq<char>, to: Seq<char> },
    CopyTree { from: Seq<char>, to: Seq<char> },
    RemoveFile(Seq<char>),
    Run { program: Seq<char>, args: Seq<Seq<char>> },
}

impl View for FsOp {
    type V = FsOpView;

    open spec fn view(&self) -> FsOpView {
        match self {
            FsOp::Log(s) => FsOpView::Log(s@),
            FsOp::RemoveDirAllIfPresent(p) => FsOpView::RemoveDirAllIfPresent(p@),
            FsOp::CreateDir(p) => FsOpView::CreateDir(p@),
            FsOp::CreateDirAll(p) => FsOpView::CreateDirAll(p@),
            FsOp::WriteEmpty(p) => FsOpView::WriteEmpty(p@),
            FsOp::CopyFile { from, to } => FsOpView::CopyFile { from: from@, to: to@ },
            FsOp::CopyTree { from, to } => FsOpView::CopyTree { from: from@, to: to@ },
            FsOp::RemoveFile(p) => FsOpView::RemoveFile(p@),
            FsOp::Run { program, args } => FsOpView::Run {
                program: program@,
                args: args@.map_values(|a: String| a@),
            },
        }
    }
}

pub open spec fn ops_view(s: Seq<FsOp>) -> Seq<FsOpView> {
    s.map_values(|x: FsOp| x@)
}

pub open spec fn strs_view(s: Seq<&str>) -> Seq<Seq<char>> {
    s.map_values(|x: &str| x@)
}

/// `a`, a slash, `b`.
pub open spec fn spec_path(a: Seq<char>, b: Seq<char>) -> Seq<char> {
    a + "/"@ + b
}

/// The directory of overlay `name` in the build tree.
pub open spec fn spec_extension_dir(name: Seq<char>) -> Seq<char> {
    spec_path(EXTENSIONS_DIR@, name)
}

/// Where the extension-release file of overlay `name` lies in the build tree.
pub open spec fn spec_release_file(name: Seq<char>) -> Seq<char> {
    spec_extension_dir(name) + "/usr/lib/extension-release.d"@ + "/extension-release."@ + name
}

/// Creating the skeleton of overlay `name`: its directory, its extension-release.d directory
/// and an empty extension-release file named after it.
pub open spec fn spec_create_extension(name: Seq<char>) -> Seq<FsOpView> {
    seq![
        FsOpView::CreateDir(spec_extension_dir(name)),
        FsOpView::CreateDirAll(spec_extension_dir(name) + "/usr/lib/extension-release.d"@),
        FsOpView::WriteEmpty(spec_release_file(name)),
    ]
}

/// Copying each directory `d` of `dirs` from `from_base/d` to `to_base/d`, in order.
pub open spec fn spec_copy_dirs(
    dirs: Seq<Seq<char>>,
    from_base: Seq<char>,
    to_base: Seq<char>,
) -> Seq<FsOpView>
    decreases dirs.len(),
{
    if dirs.len() == 0 {
        seq![]
    } else {
        spec_copy_dirs(dirs.drop_last(), from_base, to_base).push(
            FsOpView::CopyTree {
                from: spec_path(from_base, dirs.last()),
                to: spec_path(to_base, dirs.last()),
            },
        )
    }
}

/// The Sound Open Firmware board generations, as character sequences.
pub open spec fn spec_sof_generations() -> Seq<Seq<char>> {
    strs_view(SOF_BOARD_GENERATIONS@)
}

/// The AMD platforms, as character sequences.
pub open spec fn spec_amd_platforms() -> Seq<Seq<char>> {
    strs_view(AMD_PLATFORMS@)
}

/// The UCM configurations copied into the overlay of a Sound Open Firmware generation.
pub open spec fn spec_sof_ucm_dirs(g: Seq<char>) -> Seq<Seq<char>> {
    if g == "glk"@ {
        seq!["sof-glkda7219ma"@, "sof-cs42l42"@, "sof-glkrt5682ma"@]
    } else if g == "apl"@ {
        seq!["sof-bxtda7219ma"@]
    } else if g == "cml"@ {
        seq!["sof-rt5682"@, "sof-cmlda7219ma"@, "sof-cml_rt1011_"@, "sof-cml_max9839"@]
    } else if g == "tgl"@ {
        seq!["sof-rt5682"@]
    } else if g == "jsl"@ {
        seq!["sof-rt5682"@, "sof-da7219max98"@, "sof-cs42l42"@]
    } else if g == "adl"@ {
        seq!["sof-rt5682"@, "sof-nau8825"@, "sof-ssp_amp"@]
    } else {
        seq![]
    }
}

/// The UCM configurations copied into the overlay of an AMD platform.
pub open spec fn spec_amd_ucm_dirs(p: Seq<char>) -> Seq<Seq<char>> {
    if p == "stoney"@ {
        seq!["acpd7219m98357"@]
    } else if p == "picasso"@ {
        seq!["acp3xalc5682m98"@, "acp3xalc5682101"@]
    } else if p == "cezanne"@ {
        seq!["sof-rt5682s-rt1"@]
    } else if p == "mendocino"@ {
        seq!["sof-rt5682s-hs-"@]
    } else {
        seq![]
    }
}

/// The UCM configuration directory of overlay `name` in the build tree.
pub open spec fn spec_conf_d(name: Seq<char>) -> Seq<char> {
    spec_extension_dir(name) + "/usr/share/alsa/ucm2/conf.d"@
}

/// Building the overlay of one Sound Open Firmware generation.
pub open spec fn spec_sof_section(g: Seq<char>) -> Seq<FsOpView> {
    let name = spec_sof_extension_name(g);
    spec_create_extension(name) + seq![FsOpView::CreateDirAll(spec_conf_d(name))] + spec_copy_dirs(
        spec_sof_ucm_dirs(g),
        "chromebook-ucm-conf/"@ + g,
        spec_conf_d(name),
    )
}

/// Building the overlay of one AMD platform.
pub open spec fn spec_amd_section(p: Seq<char>) -> Seq<FsOpView> {
    let name = spec_platform_extension_name(p);
    spec_create_extension(name) + seq![FsOpView::CreateDirAll(spec_conf_d(name))] + spec_copy_dirs(
        spec_amd_ucm_dirs(p),
        "chromebook-ucm-conf/"@ + p,
        spec_conf_d(name),
    )
}

/// Building the overlays of the generations `gs`, in order.
pub open spec fn spec_sof_sections(gs: Seq<Seq<char>>) -> Seq<FsOpView>
    decreases gs.len(),
{
    if gs.len() == 0 {
        seq![]
    } else {
        spec_sof_sections(gs.drop_last()) + spec_sof_section(gs.last())
    }
}

/// Building the overlays of the platforms `ps`, in order.
pub open spec fn spec_amd_sections(ps: Seq<Seq<char>>) -> Seq<FsOpView>
    decreases ps.len(),
{
    if ps.len() == 0 {
        seq![]
    } else {
        spec_amd_sections(ps.drop_last()) + spec_amd_section(ps.last())
    }
}

/// Building the overlay of the UCM files shared by every board.
pub open spec fn spec_common_section() -> Seq<FsOpView> {
    let name = EXTENSION_PREFIX@ + "-common-ucm"@;
    spec_create_extension(name) + seq![
        FsOpView::CreateDirAll(spec_extension_dir(name) + "/usr/share/alsa/ucm2"@),
        FsOpView::CopyTree {
            from: "chromebook-ucm-conf/common"@,
            to: spec_extension_dir(name) + "/usr/share/alsa/ucm2/common"@,
        },
    ]
}

/// The AVS firmware directory of overlay `name` in the build tree.
pub open spec fn spec_avs_firmware(name: Seq<char>) -> Seq<char> {
    spec_extension_dir(name) + "/usr/lib/firmware/intel/avs"@
}

/// Building the AVS overlay, which leaves out the max98357a topology, and then the overlay
/// that holds only that topology.
pub open spec fn spec_avs_section() -> Seq<FsOpView> {
    let avs = EXTENSION_PREFIX@ + "-avs"@;
    let max = EXTENSION_PREFIX@ + "-avs-max98357a"@;
    spec_create_extension(avs) + seq![
        FsOpView::CreateDirAll(spec_conf_d(avs)),
        FsOpView::CopyTree { from: "chromebook-ucm-conf/avs"@, to: spec_conf_d(avs) },
        FsOpView::CreateDirAll(spec_avs_firmware(avs)),
        FsOpView::CopyTree { from: "conf/avs/tplg"@, to: spec_avs_firmware(avs) },
        FsOpView::RemoveFile(spec_avs_firmware(avs) + "/max98357a-tplg.bin"@),
    ] + spec_create_extension(max) + seq![
        FsOpView::CreateDirAll(spec_avs_firmware(max)),
        FsOpView::CopyFile {
            from: "conf/avs/tplg/max98357a-tplg.bin"@,
            to: spec_avs_firmware(max) + "/max98357a-tplg.bin"@,
        },
    ]
}

/// Building the mt8183 overlay.
pub open spec fn spec_mt8183_section() -> Seq<FsOpView> {
    let name = EXTENSION_PREFIX@ + "-mt8138"@;
    spec_create_extension(name) + seq![FsOpView::CreateDirAll(spec_conf_d(name))] + spec_copy_dirs(
        strs_view(MT8183_UCM_DIRS@),
        "chromebook-ucm-conf/mt8183"@,
        spec_conf_d(name),
    )
}

/// Adding the Sound Open Firmware binaries and topologies to the mendocino overlay.
pub open spec fn spec_mendocino_firmware() -> Seq<FsOpView> {
    let name = EXTENSION_PREFIX@ + "-mendocino"@;
    let fw = spec_extension_dir(name) + "/usr/lib/firmware/amd/sof/community"@;
    let tplg = spec_extension_dir(name) + "/usr/lib/firmware/amd/sof-tplg"@;
    seq![
        FsOpView::CreateDirAll(fw),
        FsOpView::CreateDirAll(tplg),
        FsOpView::CopyTree { from: "conf/amd-sof/fw"@, to: fw },
        FsOpView::CopyTree { from: "conf/amd-sof/tplg"@, to: tplg },
    ]
}

/// Everything the generate tool does: build every overlay afresh under `EXTENSIONS_DIR`.
pub open spec fn spec_generate_plan() -> Seq<FsOpView> {
    seq![
        FsOpView::RemoveDirAllIfPresent(EXTENSIONS_DIR@),
        FsOpView::CreateDir(EXTENSIONS_DIR@),
    ] + spec_common_section() + spec_sof_sections(spec_sof_generations()) + spec_avs_section()
        + spec_mt8183_section() + spec_amd_sections(spec_amd_platforms())
        + spec_mendocino_firmware()
}

fn push_op(ops: &mut Vec<FsOp>, op: FsOp)
    ensures
        ops_view(final(ops)@) == ops_view(old(ops)@).push(op@),
{
    ops.push(op);
    proof {
        assert(ops_view(ops@) =~= ops_view(old(ops)@).push(op@));
    }
}

/// `a`, a slash, `b`.
fn path(a: &str, b: &str) -> (r: String)
    ensures
        r@ == spec_path(a@, b@),
{
    join3(a, "/", b)
}

/// The directory of overlay `name` in the build tree.
pub fn extension_dir(name: &str) -> (r: String)
    ensures
        r@ == spec_extension_dir(name@),
{
    path(EXTENSIONS_DIR, name)
}

/// The operations that create the skeleton of overlay `name`.
pub fn create_extension(name: &str) -> (ops: Vec<FsOp>)
    ensures
        ops_view(ops@) == spec_create_extension(name@),
{
    let dir = extension_dir(name);
    let release_d = join2(dir.as_str(), "/usr/lib/extension-release.d");
    let file = join3(release_d.as_str(), "/extension-release.", name);
    let mut ops: Vec<FsOp> = Vec::new();
    ops.push(FsOp::CreateDir(dir));
    ops.push(FsOp::CreateDirAll(release_d));
    ops.push(FsOp::WriteEmpty(file));
    proof {
        assert(ops_view(ops@) =~= spec_create_extension(name@));
    }
    ops
}

fn push_all(ops: &mut Vec<FsOp>, more: Vec<FsOp>)
    ensures
        ops_view(final(ops)@) == ops_view(old(ops)@) + ops_view(more@),
{
    let mut more = more;
    let ghost m = more@;
    ops.append(&mut more);
    proof {
        assert(ops_view(ops@) =~= ops_view(old(ops)@) + ops_view(m));
    }
}

fn push_copy_dirs(ops: &mut Vec<FsOp>, dirs: &Vec<&str>, from_base: &str, to_base: &str)
    ensures
        ops_view(final(ops)@) == ops_view(old(ops)@) + spec_copy_dirs(
            strs_view(dirs@),
            from_base@,
            to_base@,
        ),
{
    let ghost start = ops_view(ops@);
    let n: usize = dirs.len();
    let mut i: usize = 0;
    while i < n
        invariant
            n == dirs@.len(),
            i <= n,
            ops_view(ops@) == start + spec_copy_dirs(
                strs_view(dirs@.take(i as int)),
                from_base@,
                to_base@,
            ),
        decreases n - i,
    {
        let d = dirs[i];
        push_op(ops, FsOp::CopyTree { from: path(from_base, d), to: path(to_base, d) });
        proof {
            let next = strs_view(dirs@.take(i + 1));
            assert(next.drop_last() =~= strs_view(dirs@.take(i as int)));
            assert(next.last() == d@);
            assert(ops_view(ops@) =~= start + spec_copy_dirs(next, from_base@, to_base@));
        }
        i = i + 1;
    }
    proof {
        assert(dirs@.take(n as int) =~= dirs@);
    }
}

/// The UCM configurations copied into the overlay of Sound Open Firmware generation
/// `generation`.
pub fn sof_ucm_dirs(generation: &str) -> (dirs: Vec<&'static str>)
    requires
        spec_sof_generations().contains(generation@),
    ensures
        strs_view(dirs@) == spec_sof_ucm_dirs(generation@),
{
    let dirs = if str_equal(generation, "glk") {
        vec!["sof-glkda7219ma", "sof-cs42l42", "sof-glkrt5682ma"]
    } else if str_equal(generation, "apl") {
        vec!["sof-bxtda7219ma"]
    } else if str_equal(generation, "cml") {
        vec!["sof-rt5682", "sof-cmlda7219ma", "sof-cml_rt1011_", "sof-cml_max9839"]
    } else if str_equal(generation, "tgl") {
        vec!["sof-rt5682"]
    } else if str_equal(generation, "jsl") {
        vec!["sof-rt5682", "sof-da7219max98", "sof-cs42l42"]
    } else {
        vec!["sof-rt5682", "sof-nau8825", "sof-ssp_amp"]
    };
    assert(strs_view(dirs@) =~= spec_sof_ucm_dirs(generation@));
    dirs
}

/// The UCM configurations copied into the overlay of AMD platform `platform`.
pub fn amd_ucm_dirs(platform: &str) -> (dirs: Vec<&'static str>)
    requires
        spec_amd_platforms().contains(platform@),
    ensures
        strs_view(dirs@) == spec_amd_ucm_dirs(platform@),
{
    let dirs = if str_equal(platform, "stoney") {
        vec!["acpd7219m98357"]
    } else if str_equal(platform, "picasso") {
        vec!["acp3xalc5682m98", "acp3xalc5682101"]
    } else if str_equal(platform, "cezanne") {
        vec!["sof-rt5682s-rt1"]
    } else {
        vec!["sof-rt5682s-hs-"]
    };
    assert(strs_view(dirs@) =~= spec_amd_ucm_dirs(platform@));
    dirs
}

fn push_sof_section(ops: &mut Vec<FsOp>, generation: &str)
    requires
        spec_sof_generations().contains(generation@),
    ensures
        ops_view(final(ops)@) == ops_view(old(ops)@) + spec_sof_section(generation@),
{
    let ghost start = ops_view(ops@);
    let name = sof_extension_name(generation);
    push_all(ops, create_extension(name.as_str()));
    let conf_d = join2(extension_dir(name.as_str()).as_str(), "/usr/share/alsa/ucm2/conf.d");
    push_op(ops, FsOp::CreateDirAll(conf_d.clone()));
    let dirs = sof_ucm_dirs(generation);
    let from_base = join2("chromebook-ucm-conf/", generation);
    push_copy_dirs(ops, &dirs, from_base.as_str(), conf_d.as_str());
    proof {
        assert(ops_view(ops@) =~= start + spec_sof_section(generation@));
    }
}

fn push_amd_section(ops: &mut Vec<FsOp>, platform: &str)
    requires
        spec_amd_platforms().contains(platform@),
    ensures
        ops_view(final(ops)@) == ops_view(old(ops)@) + spec_amd_section(platform@),
{
    let ghost start = ops_view(ops@);
    let name = platform_extension_name(platform);
    push_all(ops, create_extension(name.as_str()));
    let conf_d = join2(extension_dir(name.as_str()).as_str(), "/usr/share/alsa/ucm2/conf.d");
    push_op(ops, FsOp::CreateDirAll(conf_d.clone()));
    let dirs = amd_ucm_dirs(platform);
    let from_base = join2("chromebook-ucm-conf/", platform);
    push_copy_dirs(ops, &dirs, from_base.as_str(), conf_d.as_str());
    proof {
        assert(ops_view(ops@) =~= start + spec_amd_section(platform@));
    }
}

fn push_common_section(ops: &mut Vec<FsOp>)
    ensures
        ops_view(final(ops)@) == ops_view(old(ops)@) + spec_common_section(),
{
    let ghost start = ops_view(ops@);
    let name = get_common_ucm_extension_name();
    push_all(ops, create_extension(name.as_str()));
    let dir = extension_dir(name.as_str());
    push_op(ops, FsOp::CreateDirAll(join2(dir.as_str(), "/usr/share/alsa/ucm2")));
    push_op(
        ops,
        FsOp::CopyTree {
            from: owned("chromebook-ucm-conf/common"),
            to: join2(dir.as_str(), "/usr/share/alsa/ucm2/common"),
        },
    );
    proof {
        assert(ops_view(ops@) =~= start + spec_common_section());
    }
}

fn push_avs_section(ops: &mut Vec<FsOp>)
    ensures
        ops_view(final(ops)@) == ops_view(old(ops)@) + spec_avs_section(),
{
    let ghost start = ops_view(ops@);
    let avs = get_avs_extension_name();
    push_all(ops, create_extension(avs.as_str()));
    let avs_dir = extension_dir(avs.as_str());
    let conf_d = join2(avs_dir.as_str(), "/usr/share/alsa/ucm2/conf.d");
    push_op(ops, FsOp::CreateDirAll(conf_d.clone()));
    push_op(ops, FsOp::CopyTree { from: owned("chromebook-ucm-conf/avs"), to: conf_d });
    let firmware = join2(avs_dir.as_str(), "/usr/lib/firmware/intel/avs");
    push_op(ops, FsOp::CreateDirAll(firmware.clone()));
    push_op(ops, FsOp::CopyTree { from: owned("conf/avs/tplg"), to: firmware.clone() });
    // The max98357a topology goes into an overlay of its own.
    push_op(ops, FsOp::RemoveFile(join2(firmware.as_str(), "/max98357a-tplg.bin")));
    let max = get_avs_max98357a_extension_name();
    push_all(ops, create_extension(max.as_str()));
    let max_firmware = join2(extension_dir(max.as_str()).as_str(), "/usr/lib/firmware/intel/avs");
    push_op(ops, FsOp::CreateDirAll(max_firmware.clone()));
    push_op(
        ops,
        FsOp::CopyFile {
            from: owned("conf/avs/tplg/max98357a-tplg.bin"),
            to: join2(max_firmware.as_str(), "/max98357a-tplg.bin"),
        },
    );
    proof {
        assert(ops_view(ops@) =~= start + spec_avs_section());
    }
}

fn push_mt8183_section(ops: &mut Vec<FsOp>)
    ensures
        ops_view(final(ops)@) == ops_view(old(ops)@) + spec_mt8183_section(),
{
    let ghost start = ops_view(ops@);
    let name = get_mt8138_extension_name();
    push_all(ops, create_extension(name.as_str()));
    let conf_d = join2(extension_dir(name.as_str()).as_str(), "/usr/share/alsa/ucm2/conf.d");
    push_op(ops, FsOp::CreateDirAll(conf_d.clone()));
    let dirs: Vec<&str> = vec![MT8183_UCM_DIRS[0], MT8183_UCM_DIRS[1]];
    assert(dirs@ =~= MT8183_UCM_DIRS@);
    push_copy_dirs(ops, &dirs, "chromebook-ucm-conf/mt8183", conf_d.as_str());
    proof {
        assert(ops_view(ops@) =~= start + spec_mt8183_section());
    }
}

fn push_mendocino_firmware(ops: &mut Vec<FsOp>)
    ensures
        ops_view(final(ops)@) == ops_view(old(ops)@) + spec_mendocino_firmware(),
{
    let ghost start = ops_view(ops@);
    let name = join2(EXTENSION_PREFIX, "-mendocino");
    let dir = extension_dir(name.as_str());
    let fw = join2(dir.as_str(), "/usr/lib/firmware/amd/sof/community");
    let tplg = join2(dir.as_str(), "/usr/lib/firmware/amd/sof-tplg");
    push_op(ops, FsOp::CreateDirAll(fw.clone()));
    push_op(ops, FsOp::CreateDirAll(tplg.clone()));
    push_op(ops, FsOp::CopyTree { from: owned("conf/amd-sof/fw"), to: fw });
    push_op(ops, FsOp::CopyTree { from: owned("conf/amd-sof/tplg"), to: tplg });
    proof {
        assert(ops_view(ops@) =~= start + spec_mendocino_firmware());
    }
}

/// Everything the generate tool does, in order: build every overlay afresh under
/// `EXTENSIONS_DIR`.
pub fn generate_plan() -> (ops: Vec<FsOp>)
    ensures
        ops_view(ops@) == spec_generate_plan(),
{
    let mut ops: Vec<FsOp> = Vec::new();
    push_op(&mut ops, FsOp::RemoveDirAllIfPresent(owned(EXTENSIONS_DIR)));
    push_op(&mut ops, FsOp::CreateDir(owned(EXTENSIONS_DIR)));
    push_common_section(&mut ops);
    let ghost before_sof = ops_view(ops@);
    let mut i: usize = 0;
    while i < 6
        invariant
            i <= 6,
            ops_view(ops@) == before_sof + spec_sof_sections(spec_sof_generations().take(i as int)),
        decreases 6 - i,
    {
        let g = SOF_BOARD_GENERATIONS[i];
        proof {
            assert(spec_sof_generations()[i as int] == g@);
        }
        push_sof_section(&mut ops, g);
        proof {
            let next = spec_sof_generations().take(i + 1);
            assert(next.drop_last() =~= spec_sof_generations().take(i as int));
            assert(ops_view(ops@) =~= before_sof + spec_sof_sections(next));
        }
        i = i + 1;
    }
    proof {
        assert(spec_sof_generations().take(6) =~= spec_sof_generations());
    }
    push_avs_section(&mut ops);
    push_mt8183_section(&mut ops);
    let ghost before_amd = ops_view(ops@);
    let mut j: usize = 0;
    while j < 4
        invariant
            j <= 4,
            ops_view(ops@) == before_amd + spec_amd_sections(spec_amd_platforms().take(j as int)),
        decreases 4 - j,
    {
        let p = AMD_PLATFORMS[j];
        proof {
            assert(spec_amd_platforms()[j as int] == p@);
        }
        push_amd_section(&mut ops, p);
        proof {
            let next = spec_amd_platforms().take(j + 1);
            assert(next.drop_last() =~= spec_amd_platforms().take(j as int));
            assert(ops_view(ops@) =~= before_amd + spec_amd_sections(next));
        }
        j = j + 1;
    }
    proof {
        assert(spec_amd_platforms().take(4) =~= spec_amd_platforms());
    }
    push_mendocino_firmware(&mut ops);
    assert(ops_view(ops@) =~= spec_generate_plan());
    ops
}

/// Where the post-install tool puts its copy of the OS release file for overlay `name`.
pub open spec fn spec_post_install_target(name: Seq<char>) -> Seq<char> {
    "/etc/extensions/"@ + name + "/usr/lib/extension-release.d/.extension-release."@ + name
}

/// Copying the OS release file into installed overlay `name`.
pub open spec fn spec_copy_os_release(name: Seq<char>) -> FsOpView {
    FsOpView::CopyFile { from: OS_RELEASE@, to: spec_post_install_target(name) }
}

/// Copying the OS release file into the installed overlay of each generation of `gs`.
pub open spec fn spec_post_install_copies(gs: Seq<Seq<char>>) -> Seq<FsOpView>
    decreases gs.len(),
{
    if gs.len() == 0 {
        seq![]
    } else {
        spec_post_install_copies(gs.drop_last()).push(
            spec_copy_os_release("chromebook-sof-"@ + gs.last()),
        )
    }
}

/// Everything the post-install tool does: copy the OS release file into the common
/// Sound Open Firmware overlay, then into that of each Sound Open Firmware generation.
pub open spec fn spec_post_install_plan() -> Seq<FsOpView> {
    seq![spec_copy_os_release("chromebook-sof-common"@)] + spec_post_install_copies(
        spec_sof_generations(),
    )
}

fn copy_os_release(name: &str) -> (op: FsOp)
    ensures
        op@ == spec_copy_os_release(name@),
{
    let to = String::from_str("/etc/extensions/").concat(name).concat(
        "/usr/lib/extension-release.d/.extension-release.",
    ).concat(name);
    FsOp::CopyFile { from: owned(OS_RELEASE), to }
}

/// Everything the post-install tool does, in order.
pub fn post_install_plan() -> (ops: Vec<FsOp>)
    ensures
        ops_view(ops@) == spec_post_install_plan(),
{
    let mut ops: Vec<FsOp> = Vec::new();
    push_op(&mut ops, copy_os_release("chromebook-sof-common"));
    let ghost first = ops_view(ops@);
    let mut i: usize = 0;
    while i < 6
        invariant
            i <= 6,
            ops_view(ops@) == first + spec_post_install_copies(
                spec_sof_generations().take(i as int),
            ),
        decreases 6 - i,
    {
        let g = SOF_BOARD_GENERATIONS[i];
        proof {
            assert(spec_sof_generations()[i as int] == g@);
        }
        let name = join2("chromebook-sof-", g);
        push_op(&mut ops, copy_os_release(name.as_str()));
        proof {
            let next = spec_sof_generations().take(i + 1);
            assert(next.drop_last() =~= spec_sof_generations().take(i as int));
            assert(ops_view(ops@) =~= first + spec_post_install_copies(next));
        }
        i = i + 1;
    }
    proof {
        assert(spec_sof_generations().take(6) =~= spec_sof_generations());
    }
    assert(ops_view(ops@) =~= spec_post_install_plan());
    ops
}

/// Everything the setup tool does for the extension directory `extension_dir` and the
/// extension named `extension_name`, in order.
pub open spec fn spec_setup_plan(extension_dir: Seq<char>, extension_name: Seq<char>) -> Seq<
    FsOpView,
> {
    let release_d = extension_dir + "/usr/lib/extension-release.d"@;
    let ucm = extension_dir + "/usr/lib/chromebook-audio/chromebook-ucm-conf"@;
    let conf = extension_dir + "/usr/lib/chromebook-audio/conf"@;
    seq![
        FsOpView::Log("Creating systemd-sysext extension"@),
        FsOpView::CreateDirAll(release_d),
        FsOpView::CopyFile {
            from: OS_RELEASE@,
            to: release_d + "/extension-release."@ + extension_name,
        },
        FsOpView::Log("Copying UCM conf"@),
        FsOpView::CreateDirAll(ucm),
        FsOpView::CopyTree { from: "chromebook-ucm-conf"@, to: ucm },
        FsOpView::Log("Copying conf"@),
        FsOpView::CreateDirAll(conf),
        FsOpView::CopyTree { from: "conf"@, to: conf },
        FsOpView::Log("Enabling systemd-sysext"@),
        FsOpView::Run {
            program: "systemctl"@,
            args: seq!["enable"@, "--now"@, "systemd-sysext"@],
        },
    ]
}

/// Everything the setup tool does, in order.
pub fn setup_plan(extension_dir: &str, extension_name: &str) -> (ops: Vec<FsOp>)
    ensures
        ops_view(ops@) == spec_setup_plan(extension_dir@, extension_name@),
{
    let release_d = join2(extension_dir, "/usr/lib/extension-release.d");
    let release_file = join3(release_d.as_str(), "/extension-release.", extension_name);
    let ucm = join2(extension_dir, "/usr/lib/chromebook-audio/chromebook-ucm-conf");
    let conf = join2(extension_dir, "/usr/lib/chromebook-audio/conf");
    let mut args: Vec<String> = Vec::new();
    args.push(owned("enable"));
    args.push(owned("--now"));
    args.push(owned("systemd-sysext"));
    assert(args@.map_values(|a: String| a@) =~= seq!["enable"@, "--now"@, "systemd-sysext"@]);
    let mut ops: Vec<FsOp> = Vec::new();
    ops.push(FsOp::Log(owned("Creating systemd-sysext extension")));
    ops.push(FsOp::CreateDirAll(release_d));
    ops.push(FsOp::CopyFile { from: owned(OS_RELEASE), to: release_file });
    ops.push(FsOp::Log(owned("Copying UCM conf")));
    ops.push(FsOp::CreateDirAll(ucm.clone()));
    ops.push(FsOp::CopyTree { from: owned("chromebook-ucm-conf"), to: ucm });
    ops.push(FsOp::Log(owned("Copying conf")));
    ops.push(FsOp::CreateDirAll(conf.clone()));
    ops.push(FsOp::CopyTree { from: owned("conf"), to: conf });
    ops.push(FsOp::Log(owned("Enabling systemd-sysext")));
    ops.push(FsOp::Run { program: owned("systemctl"), args });
    assert(ops_view(ops@) =~= spec_setup_plan(extension_dir@, extension_name@));
    ops
}

/// The directories a list of operations creates one by one (with `CreateDir`), in order.
pub open spec fn created_dirs(ops: Seq<FsOpView>) -> Seq<Seq<char>>
    decreases ops.len(),
{
    if ops.len() == 0 {
        seq![]
    } else {
        created_dirs(ops.drop_last()) + match ops.last() {
            FsOpView::CreateDir(p) => seq![p],
            _ => seq![],
        }
    }
}

/// Creating directories one by one along `a` and then `b` creates those of `a`, then those of
/// `b`.
pub proof fn lemma_created_dirs_append(a: Seq<FsOpView>, b: Seq<FsOpView>)
    ensures
        created_dirs(a + b) == created_dirs(a) + created_dirs(b),
    decreases b.len(),
{
    if b.len() == 0 {
        assert(a + b =~= a);
        assert(created_dirs(a) + created_dirs(b) =~= created_dirs(a));
    } else {
        lemma_created_dirs_append(a, b.drop_last());
        assert((a + b).drop_last() =~= a + b.drop_last());
        assert((a + b).last() == b.last());
        assert(created_dirs(a + b) =~= created_dirs(a) + created_dirs(b));
    }
}


/// The path an operation creates or writes, if any.
pub open spec fn op_target(op: FsOpView) -> Option<Seq<char>> {
    match op {
        FsOpView::Log(_) => None,
        FsOpView::RemoveDirAllIfPresent(p) => Some(p),
        FsOpView::CreateDir(p) => Some(p),
        FsOpView::CreateDirAll(p) => Some(p),
        FsOpView::WriteEmpty(p) => Some(p),
        FsOpView::CopyFile { to, .. } => Some(to),
        FsOpView::CopyTree { to, .. } => Some(to),
        FsOpView::RemoveFile(p) => Some(p),
        FsOpView::Run { .. } => None,
    }
}

/// Whether path `p` is directory `d` or lies below it.
pub open spec fn under(p: Seq<char>, d: Seq<char>) -> bool {
    p == d || (d + "/"@).is_prefix_of(p)
}

/// Whether an operation deletes something.
pub open spec fn removes(op: FsOpView) -> bool {
    op is RemoveDirAllIfPresent || op is RemoveFile
}

pub(crate) proof fn lemma_not_under(a: Seq<char>, b: Seq<char>, rest: Seq<char>)
    requires
        a != b,
        !a.contains('/'),
        !b.contains('/'),
        rest.len() == 0 || rest[0] == '/',
    ensures
        !under(spec_extension_dir(b) + rest, spec_extension_dir(a)),
{
    reveal_strlit("/");
    let q = EXTENSIONS_DIR@ + "/"@;
    let p = spec_extension_dir(b) + rest;
    let br = b + rest;
    let sl = "/"@;
    assert(sl =~= seq!['/']);
    assert(p =~= q + br);
    assert(spec_extension_dir(a) =~= q + a);
    assert(spec_extension_dir(a) + sl =~= q + (a + sl));
    if p == spec_extension_dir(a) {
        assert(br =~= (q + br).subrange(q.len() as int, (q + br).len() as int));
        assert(a =~= (q + a).subrange(q.len() as int, (q + a).len() as int));
        assert(br == a);
        if rest.len() == 0 {
            assert(br =~= b);
        } else {
            assert(a[b.len() as int] == '/');
            assert(a.contains('/'));
        }
    }
    if (spec_extension_dir(a) + sl).is_prefix_of(p) {
        let k = q.len() as int;
        assert(forall|i: int|
            0 <= i < a.len() + 1 ==> #[trigger] (a + sl)[i] == (q + (a + sl))[k + i]);
        assert(forall|i: int| 0 <= i < a.len() + 1 ==> (q + br)[k + i] == #[trigger] br[i]);
        assert(forall|i: int| 0 <= i < a.len() + 1 ==> (a + sl)[i] == #[trigger] br[i]);
        if a.len() < b.len() {
            assert((a + sl)[a.len() as int] == '/');
            assert(br[a.len() as int] == b[a.len() as int]);
            assert(b.contains('/'));
        } else if a.len() == b.len() {
            assert forall|i: int| 0 <= i < a.len() implies a[i] == b[i] by {
                assert((a + sl)[i] == br[i]);
            }
            assert(a =~= b);
        } else {
            assert(br[b.len() as int] == (a + sl)[b.len() as int]);
            assert(a[b.len() as int] == '/');
            assert(a.contains('/'));
        }
    }
}

/// The operations that create overlay `name` all create or write below its own directory;
/// for two different names without a slash, neither plan touches anything below the other's
/// directory, so the two plans act on disjoint parts of the build tree and can run in either
/// order.
pub proof fn law_create_extensions_disjoint(a: Seq<char>, b: Seq<char>)
    requires
        a != b,
        !a.contains('/'),
        !b.contains('/'),
    ensures
        forall|i: int|
            0 <= i < spec_create_extension(a).len() ==> {
                &&& op_target(#[trigger] spec_create_extension(a)[i]) is Some
                &&& under(op_target(spec_create_extension(a)[i])->0, spec_extension_dir(a))
                &&& !under(op_target(spec_create_extension(a)[i])->0, spec_extension_dir(b))
            },
        forall|i: int|
            0 <= i < spec_create_extension(b).len() ==> {
                &&& op_target(#[trigger] spec_create_extension(b)[i]) is Some
                &&& under(op_target(spec_create_extension(b)[i])->0, spec_extension_dir(b))
                &&& !under(op_target(spec_create_extension(b)[i])->0, spec_extension_dir(a))
            },
{
    lemma_plan_under_own_dir(a, b);
    lemma_plan_under_own_dir(b, a);
}

proof fn lemma_plan_under_own_dir(a: Seq<char>, b: Seq<char>)
    requires
        a != b,
        !a.contains('/'),
        !b.contains('/'),
    ensures
        forall|i: int|
            0 <= i < spec_create_extension(a).len() ==> {
                &&& op_target(#[trigger] spec_create_extension(a)[i]) is Some
                &&& under(op_target(spec_create_extension(a)[i])->0, spec_extension_dir(a))
                &&& !under(op_target(spec_create_extension(a)[i])->0, spec_extension_dir(b))
            },
{
    reveal_strlit("/usr/lib/extension-release.d");
    reveal_strlit("/extension-release.");
    reveal_strlit("/");
    let d = spec_extension_dir(a);
    let r1 = "/usr/lib/extension-release.d"@;
    let r2 = r1 + "/extension-release."@ + a;
    assert(r1[0] == '/');
    assert(r2[0] == '/');
    let empty = Seq::<char>::empty();
    assert(d + empty =~= d);
    assert(d + r2 =~= spec_release_file(a));
    assert(d + r1 =~= d + "/usr/lib/extension-release.d"@);
    lemma_not_under(b, a, empty);
    lemma_not_under(b, a, r1);
    lemma_not_under(b, a, r2);
    lemma_under_own(d, r1);
    lemma_under_own(d, r2);
}

pub(crate) proof fn lemma_under_own(d: Seq<char>, rest: Seq<char>)
    requires
        rest.len() > 0,
        rest[0] == '/',
    ensures
        under(d + rest, d),
{
    reveal_strlit("/");
    let sl = "/"@;
    assert(sl =~= seq!['/']);
    assert((d + rest).subrange(0, (d + sl).len() as int) =~= d + sl);
}

/// The operations that create overlay `name` begin by creating its directory with the
/// one-directory creation, which fails where the directory exists, and none of them deletes
/// anything: so after they have run once, running them again fails at once. The directory
/// list of two runs in a row names that directory twice.
pub proof fn law_create_extension_not_repeatable(name: Seq<char>)
    ensures
        spec_create_extension(name)[0] == FsOpView::CreateDir(spec_extension_dir(name)),
        forall|i: int|
            0 <= i < spec_create_extension(name).len() ==> !removes(
                #[trigger] spec_create_extension(name)[i],
            ),
        created_dirs(spec_create_extension(name) + spec_create_extension(name)) == seq![
            spec_extension_dir(name),
            spec_extension_dir(name),
        ],
        !created_dirs(spec_create_extension(name) + spec_create_extension(name)).no_duplicates(),
{
    let ops = spec_create_extension(name);
    let o1 = ops.drop_last().drop_last();
    assert(o1 =~= seq![FsOpView::CreateDir(spec_extension_dir(name))]);
    assert(o1.drop_last() =~= Seq::<FsOpView>::empty());
    assert(created_dirs(o1.drop_last()) =~= Seq::<Seq<char>>::empty());
    assert(created_dirs(o1) =~= seq![spec_extension_dir(name)]);
    assert(created_dirs(ops.drop_last()) =~= seq![spec_extension_dir(name)]);
    assert(created_dirs(ops) =~= seq![spec_extension_dir(name)]);
    lemma_created_dirs_append(ops, ops);
    let both = created_dirs(ops + ops);
    assert(both =~= seq![spec_extension_dir(name), spec_extension_dir(name)]);
    assert(both[0] == both[1]);
}

} // verus!
