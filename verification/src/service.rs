use vstd::prelude::*;

use crate::names::{
    get_avs_extension_name, get_avs_max98357a_extension_name, get_common_ucm_extension_name,
    get_mt8138_extension_name, platform_extension_name, sof_extension_name,
    spec_platform_extension_name, spec_sof_extension_name, EXTENSION_PREFIX,
};
use crate::text::{join2, join3, join4, owned, str_equal};

verus! {

/// File whose contents every enabled overlay presents as its extension-release file.
pub const OS_RELEASE: &'static str = "/etc/os-release";

/// The audio setup a user asked for on boards that can run more than one.
#[derive(Clone, Copy, Debug, PartialEq, Eq, Structural)]
pub enum AudioChoice {
    Sof,
    AvsWithoutMax98357a,
    AvsWithMax98357a,
}

/// Groups of board generations that are set up the same way.
#[derive(Clone, Copy, Debug, PartialEq, Eq, Structural)]
pub enum BoardFamily {
    /// bdw, byt, bsw
    Braswell,
    /// skl, kbl: AVS only
    Skylake,
    /// apl: SOF or AVS
    ApolloLake,
    /// glk, cml, tgl, jsl, adl
    Sof,
    /// stoney, picasso, cezanne, mendocino
    Amd,
    /// mt8183
    Mediatek,
    /// anything else
    Unsupported,
}

/// What the service enables.
#[derive(Clone, Copy, Debug, PartialEq, Eq, Structural)]
pub enum AudioSetup {
    Bsw,
    Sof,
    Avs { max98357a: bool },
    Amd,
    Mt8183,
    Unsupported,
}

/// One thing the service does, in order.
#[derive(Debug, PartialEq, Eq)]
pub enum ServiceStep {
    /// Print a line.
    Log(String),
    /// Mount a read-only file system at `target` that shows the contents of `source`.
    Mount { source: String, target: String },
    /// Restart systemd-sysext, then keep the mounts until the process is interrupted.
    Finish,
}

/// `ServiceStep` with its strings taken as character sequences.
pub enum ServiceStepView {
    Log(Seq<char>),
    Mount { source: Seq<char>, target: Seq<char> },
    Finish,
}

impl View for ServiceStep {
    type V = ServiceStepView;

    open spec fn view(&self) -> ServiceStepView {
        match self {
            ServiceStep::Log(s) => ServiceStepView::Log(s@),
            ServiceStep::Mount { source, target } => ServiceStepView::Mount {
                source: source@,
                target: target@,
            },
            ServiceStep::Finish => ServiceStepView::Finish,
        }
    }
}

pub open spec fn steps_view(s: Seq<ServiceStep>) -> Seq<ServiceStepView> {
    s.map_values(|x: ServiceStep| x@)
}

/// The family a board generation belongs to.
pub open spec fn spec_board_family(g: Seq<char>) -> BoardFamily {
    if g == "bdw"@ || g == "byt"@ || g == "bsw"@ {
        BoardFamily::Braswell
    } else if g == "skl"@ || g == "kbl"@ {
        BoardFamily::Skylake
    } else if g == "apl"@ {
        BoardFamily::ApolloLake
    } else if g == "glk"@ || g == "cml"@ || g == "tgl"@ || g == "jsl"@ || g == "adl"@ {
        BoardFamily::Sof
    } else if g == "stoney"@ || g == "picasso"@ || g == "cezanne"@ || g == "mendocino"@ {
        BoardFamily::Amd
    } else if g == "mt8183"@ {
        BoardFamily::Mediatek
    } else {
        BoardFamily::Unsupported
    }
}

/// Whether the setup of a family depends on the max98357a probe and the user's choice.
pub open spec fn spec_needs_probe(f: BoardFamily) -> bool {
    f is Skylake || f is ApolloLake
}

/// The setup chosen for a family, given whether a max98357a amplifier was found and
/// what the user chose.
pub open spec fn spec_select_setup(
    f: BoardFamily,
    has_max98357a: bool,
    choice: Option<AudioChoice>,
) -> AudioSetup {
    match f {
        BoardFamily::Braswell => AudioSetup::Bsw,
        BoardFamily::Skylake => AudioSetup::Avs {
            max98357a: has_max98357a && choice == Some(AudioChoice::AvsWithMax98357a),
        },
        BoardFamily::ApolloLake => match choice {
            Some(AudioChoice::AvsWithMax98357a) => AudioSetup::Avs { max98357a: has_max98357a },
            Some(AudioChoice::AvsWithoutMax98357a) => AudioSetup::Avs { max98357a: false },
            Some(AudioChoice::Sof) => AudioSetup::Sof,
            None => AudioSetup::Sof,
        },
        BoardFamily::Sof => AudioSetup::Sof,
        BoardFamily::Amd => AudioSetup::Amd,
        BoardFamily::Mediatek => AudioSetup::Mt8183,
        BoardFamily::Unsupported => AudioSetup::Unsupported,
    }
}

/// Where the extension-release file of overlay `o` is mounted.
pub open spec fn spec_overlay_target(o: Seq<char>) -> Seq<char> {
    "/etc/extensions/"@ + o + "/usr/lib/extension-release.d/extension-release."@ + o
}

/// Enabling overlay `o`: announce it, then mount the OS release file as its release file.
pub open spec fn spec_overlay_steps(o: Seq<char>) -> Seq<ServiceStepView> {
    seq![
        ServiceStepView::Log("Enabling overlay: "@ + o),
        ServiceStepView::Mount { source: OS_RELEASE@, target: spec_overlay_target(o) },
    ]
}

pub open spec fn spec_redirect(source: Seq<char>, target: Seq<char>) -> ServiceStepView {
    ServiceStepView::Mount { source, target }
}

/// The steps of a setup on a board of generation `g`.
pub open spec fn spec_setup_steps(setup: AudioSetup, g: Seq<char>) -> Seq<ServiceStepView> {
    match setup {
        AudioSetup::Bsw => seq![
            ServiceStepView::Log("Enabling bsw audio"@),
            spec_redirect(
                "/usr/share/chromebook-audio/bsw-sof.conf"@,
                "/etc/modprobe.d/bsw-sof.conf"@,
            ),
            ServiceStepView::Finish,
        ],
        AudioSetup::Sof => seq![ServiceStepView::Log("Enabling SOF audio"@)]
            + spec_overlay_steps(EXTENSION_PREFIX@ + "-common-ucm"@)
            + spec_overlay_steps(spec_sof_extension_name(g))
            + seq![
            spec_redirect(
                "/usr/share/chromebook-audio/snd-sof.conf"@,
                "/etc/modprobe.d/snd-sof.conf"@,
            ),
            ServiceStepView::Finish,
        ],
        AudioSetup::Avs { max98357a } => seq![ServiceStepView::Log("Enabling AVS"@)]
            + spec_overlay_steps(EXTENSION_PREFIX@ + "-avs"@)
            + seq![
            spec_redirect(
                "/usr/share/chromebook-audio/snd-avs.conf"@,
                "/etc/modprobe.d/snd-avs.conf"@,
            ),
            spec_redirect(
                "/usr/share/chromebook-audio/51-avs-dmic.lua"@,
                "/etc/wireplumber/main.lua.d/51-avs-dmic.lua"@,
            ),
        ] + (if max98357a {
            seq![ServiceStepView::Log("Enabling max98357a"@)] + spec_overlay_steps(
                EXTENSION_PREFIX@ + "-avs-max98357a"@,
            )
        } else {
            seq![ServiceStepView::Log("Not enabling max98357a"@)]
        }) + seq![ServiceStepView::Finish],
        AudioSetup::Amd => seq![ServiceStepView::Log("Enabling AMD audio"@)]
            + spec_overlay_steps(EXTENSION_PREFIX@ + "-common-ucm"@)
            + spec_overlay_steps(spec_platform_extension_name(g))
            + seq![ServiceStepView::Finish],
        AudioSetup::Mt8183 => seq![ServiceStepView::Log("Enabling mt8183 audio"@)]
            + spec_overlay_steps(EXTENSION_PREFIX@ + "-mt8138"@)
            + seq![ServiceStepView::Finish],
        AudioSetup::Unsupported => seq![
            ServiceStepView::Log("Audio not implemented for "@ + g + " yet"@),
        ],
    }
}

/// Everything the service does, given the generation the board table gives for this board
/// (`None`: the board is not in the table), the max98357a probe and the user's choice.
pub open spec fn spec_service_steps(
    board_generation: Option<Seq<char>>,
    has_max98357a: bool,
    choice: Option<AudioChoice>,
) -> Seq<ServiceStepView> {
    match board_generation {
        None => seq![ServiceStepView::Log("Not a chromebook. Not overlaying Chromebook audio."@)],
        Some(g) => spec_setup_steps(
            spec_select_setup(spec_board_family(g), has_max98357a, choice),
            g,
        ),
    }
}

/// The family of a board generation.
pub fn board_family(generation: &str) -> (f: BoardFamily)
    ensures
        f == spec_board_family(generation@),
{
    if str_equal(generation, "bdw") || str_equal(generation, "byt") || str_equal(
        generation,
        "bsw",
    ) {
        BoardFamily::Braswell
    } else if str_equal(generation, "skl") || str_equal(generation, "kbl") {
        BoardFamily::Skylake
    } else if str_equal(generation, "apl") {
        BoardFamily::ApolloLake
    } else if str_equal(generation, "glk") || str_equal(generation, "cml") || str_equal(
        generation,
        "tgl",
    ) || str_equal(generation, "jsl") || str_equal(generation, "adl") {
        BoardFamily::Sof
    } else if str_equal(generation, "stoney") || str_equal(generation, "picasso") || str_equal(
        generation,
        "cezanne",
    ) || str_equal(generation, "mendocino") {
        BoardFamily::Amd
    } else if str_equal(generation, "mt8183") {
        BoardFamily::Mediatek
    } else {
        BoardFamily::Unsupported
    }
}

impl BoardFamily {
    /// Whether the setup of this family depends on the max98357a probe and the user's choice.
    pub fn needs_probe(&self) -> (r: bool)
        ensures
            r == spec_needs_probe(*self),
    {
        match self {
            BoardFamily::Skylake | BoardFamily::ApolloLake => true,
            _ => false,
        }
    }
}

/// The setup for a family, given the max98357a probe and the user's choice.
pub fn select_setup(
    family: BoardFamily,
    has_max98357a: bool,
    choice: Option<AudioChoice>,
) -> (s: AudioSetup)
    ensures
        s == spec_select_setup(family, has_max98357a, choice),
{
    match family {
        BoardFamily::Braswell => AudioSetup::Bsw,
        BoardFamily::Skylake => {
            let chosen = match choice {
                Some(AudioChoice::AvsWithMax98357a) => true,
                _ => false,
            };
            AudioSetup::Avs { max98357a: has_max98357a && chosen }
        },
        BoardFamily::ApolloLake => match choice {
            Some(AudioChoice::AvsWithMax98357a) => AudioSetup::Avs { max98357a: has_max98357a },
            Some(AudioChoice::AvsWithoutMax98357a) => AudioSetup::Avs { max98357a: false },
            Some(AudioChoice::Sof) => AudioSetup::Sof,
            // Stable audio with working speakers is a better default than AVS, where only the
            // headphone jack and the internal microphone may work.
            None => AudioSetup::Sof,
        },
        BoardFamily::Sof => AudioSetup::Sof,
        BoardFamily::Amd => AudioSetup::Amd,
        BoardFamily::Mediatek => AudioSetup::Mt8183,
        BoardFamily::Unsupported => AudioSetup::Unsupported,
    }
}

fn push_log(steps: &mut Vec<ServiceStep>, line: &str)
    ensures
        steps_view(final(steps)@) == steps_view(old(steps)@).push(ServiceStepView::Log(line@)),
{
    steps.push(ServiceStep::Log(owned(line)));
    proof {
        assert(steps_view(steps@) =~= steps_view(old(steps)@).push(ServiceStepView::Log(line@)));
    }
}

fn push_redirect(steps: &mut Vec<ServiceStep>, source: &str, target: &str)
    ensures
        steps_view(final(steps)@) == steps_view(old(steps)@).push(
            spec_redirect(source@, target@),
        ),
{
    steps.push(ServiceStep::Mount { source: owned(source), target: owned(target) });
    proof {
        assert(steps_view(steps@) =~= steps_view(old(steps)@).push(
            spec_redirect(source@, target@),
        ));
    }
}

fn push_finish(steps: &mut Vec<ServiceStep>)
    ensures
        steps_view(final(steps)@) == steps_view(old(steps)@).push(ServiceStepView::Finish),
{
    steps.push(ServiceStep::Finish);
    proof {
        assert(steps_view(steps@) =~= steps_view(old(steps)@).push(ServiceStepView::Finish));
    }
}

/// Where the extension-release file of overlay `overlay` is mounted.
pub fn overlay_target(overlay: &str) -> (r: String)
    ensures
        r@ == spec_overlay_target(overlay@),
{
    join4("/etc/extensions/", overlay, "/usr/lib/extension-release.d/extension-release.", overlay)
}

fn push_overlay(steps: &mut Vec<ServiceStep>, overlay: &str)
    ensures
        steps_view(final(steps)@) == steps_view(old(steps)@) + spec_overlay_steps(overlay@),
{
    steps.push(ServiceStep::Log(join2("Enabling overlay: ", overlay)));
    steps.push(ServiceStep::Mount { source: owned(OS_RELEASE), target: overlay_target(overlay) });
    proof {
        assert(steps_view(steps@) =~= steps_view(old(steps)@) + spec_overlay_steps(overlay@));
    }
}

/// The steps of `setup` on a board of generation `generation`.
pub fn setup_steps(setup: AudioSetup, generation: &str) -> (steps: Vec<ServiceStep>)
    ensures
        steps_view(steps@) == spec_setup_steps(setup, generation@),
{
    let mut steps: Vec<ServiceStep> = Vec::new();
    proof {
        assert(steps_view(steps@) =~= Seq::<ServiceStepView>::empty());
    }
    match setup {
        AudioSetup::Bsw => {
            push_log(&mut steps, "Enabling bsw audio");
            push_redirect(
                &mut steps,
                "/usr/share/chromebook-audio/bsw-sof.conf",
                "/etc/modprobe.d/bsw-sof.conf",
            );
            push_finish(&mut steps);
            assert(steps_view(steps@) =~= spec_setup_steps(setup, generation@));
        },
        AudioSetup::Sof => {
            push_log(&mut steps, "Enabling SOF audio");
            let common = get_common_ucm_extension_name();
            push_overlay(&mut steps, common.as_str());
            let board = sof_extension_name(generation);
            push_overlay(&mut steps, board.as_str());
            push_redirect(
                &mut steps,
                "/usr/share/chromebook-audio/snd-sof.conf",
                "/etc/modprobe.d/snd-sof.conf",
            );
            push_finish(&mut steps);
            assert(steps_view(steps@) =~= spec_setup_steps(setup, generation@));
        },
        AudioSetup::Avs { max98357a } => {
            push_log(&mut steps, "Enabling AVS");
            let avs = get_avs_extension_name();
            push_overlay(&mut steps, avs.as_str());
            push_redirect(
                &mut steps,
                "/usr/share/chromebook-audio/snd-avs.conf",
                "/etc/modprobe.d/snd-avs.conf",
            );
            push_redirect(
                &mut steps,
                "/usr/share/chromebook-audio/51-avs-dmic.lua",
                "/etc/wireplumber/main.lua.d/51-avs-dmic.lua",
            );
            if max98357a {
                push_log(&mut steps, "Enabling max98357a");
                let max = get_avs_max98357a_extension_name();
                push_overlay(&mut steps, max.as_str());
            } else {
                push_log(&mut steps, "Not enabling max98357a");
            }
            push_finish(&mut steps);
            assert(steps_view(steps@) =~= spec_setup_steps(setup, generation@));
        },
        AudioSetup::Amd => {
            push_log(&mut steps, "Enabling AMD audio");
            let common = get_common_ucm_extension_name();
            push_overlay(&mut steps, common.as_str());
            let board = platform_extension_name(generation);
            push_overlay(&mut steps, board.as_str());
            push_finish(&mut steps);
            assert(steps_view(steps@) =~= spec_setup_steps(setup, generation@));
        },
        AudioSetup::Mt8183 => {
            push_log(&mut steps, "Enabling mt8183 audio");
            let mt = get_mt8138_extension_name();
            push_overlay(&mut steps, mt.as_str());
            push_finish(&mut steps);
            assert(steps_view(steps@) =~= spec_setup_steps(setup, generation@));
        },
        AudioSetup::Unsupported => {
            let line = join3("Audio not implemented for ", generation, " yet");
            push_log(&mut steps, line.as_str());
            assert(steps_view(steps@) =~= spec_setup_steps(setup, generation@));
        },
    }
    steps
}

/// Everything the service does, given the generation the board table gives for this board
/// (`None`: the board is not in the table), the max98357a probe and the user's choice.
pub fn service_steps(
    board_generation: Option<&str>,
    has_max98357a: bool,
    choice: Option<AudioChoice>,
) -> (steps: Vec<ServiceStep>)
    ensures
        steps_view(steps@) == spec_service_steps(
            match board_generation {
                Some(g) => Some(g@),
                None => None,
            },
            has_max98357a,
            choice,
        ),
{
    match board_generation {
        None => {
            let mut steps: Vec<ServiceStep> = Vec::new();
            push_log(&mut steps, "Not a chromebook. Not overlaying Chromebook audio.");
            assert(steps_view(steps@) =~= seq![
                ServiceStepView::Log("Not a chromebook. Not overlaying Chromebook audio."@),
            ]);
            steps
        },
        Some(g) => {
            let family = board_family(g);
            let setup = select_setup(family, has_max98357a, choice);
            setup_steps(setup, g)
        },
    }
}

/// Only the Skylake and Apollo Lake families look at the max98357a probe and the user's
/// choice: for every other family the setup is the same whatever they are, so the service
/// need not ask.
pub proof fn law_probe_only_matters_where_needed(
    f: BoardFamily,
    has1: bool,
    choice1: Option<AudioChoice>,
    has2: bool,
    choice2: Option<AudioChoice>,
)
    requires
        !spec_needs_probe(f),
    ensures
        spec_select_setup(f, has1, choice1) == spec_select_setup(f, has2, choice2),
{
}

/// The max98357a overlay is chosen only where the amplifier was found and the user asked
/// for it.
pub proof fn law_max98357a_needs_hardware_and_choice(
    f: BoardFamily,
    has_max98357a: bool,
    choice: Option<AudioChoice>,
)
    ensures
        spec_select_setup(f, has_max98357a, choice) == (AudioSetup::Avs { max98357a: true })
            ==> has_max98357a && choice == Some(AudioChoice::AvsWithMax98357a),
{
}

/// An Apollo Lake board whose user made no choice gets Sound Open Firmware, whatever the
/// probe found.
pub proof fn law_apollo_lake_defaults_to_sof(has_max98357a: bool)
    ensures
        spec_select_setup(BoardFamily::ApolloLake, has_max98357a, None) == AudioSetup::Sof,
{
}

/// Whether a step mounts something.
pub open spec fn is_mount(s: ServiceStepView) -> bool {
    s is Mount
}

/// Whether a step is the final restart-and-wait.
pub open spec fn is_finish(s: ServiceStepView) -> bool {
    s is Finish
}

/// The service restarts systemd-sysext and waits exactly when it mounted something, and it
/// does so only as its last step: a board that is not in the table, or whose generation is
/// not supported, gets one line of output and nothing else.
pub proof fn law_finish_exactly_after_mounts(
    board_generation: Option<Seq<char>>,
    has_max98357a: bool,
    choice: Option<AudioChoice>,
)
    ensures
        ({
            let steps = spec_service_steps(board_generation, has_max98357a, choice);
            &&& steps.len() > 0
            &&& forall|i: int| 0 <= i < steps.len() - 1 ==> !is_finish(#[trigger] steps[i])
            &&& is_finish(steps.last()) <==> (exists|i: int|
                0 <= i < steps.len() && is_mount(#[trigger] steps[i]))
            &&& is_finish(steps.last()) <==> (board_generation is Some && spec_board_family(
                board_generation->0,
            ) != BoardFamily::Unsupported)
        }),
{
    let steps = spec_service_steps(board_generation, has_max98357a, choice);
    match board_generation {
        None => {
            assert(!is_mount(steps[0]));
        },
        Some(g) => {
            let setup = spec_select_setup(spec_board_family(g), has_max98357a, choice);
            match setup {
                AudioSetup::Unsupported => {
                    assert(!is_mount(steps[0]));
                },
                AudioSetup::Bsw => {
                    assert(is_mount(steps[1]));
                },
                _ => {
                    assert(is_mount(steps[2]));
                },
            }
        },
    }
}

/// The service runs the setup that the selection gives for the very probe result and choice
/// it was handed, on a board of a known generation.
pub proof fn law_service_runs_selected_setup(
    g: Seq<char>,
    has_max98357a: bool,
    choice: Option<AudioChoice>,
)
    ensures
        spec_service_steps(Some(g), has_max98357a, choice) == spec_setup_steps(
            spec_select_setup(spec_board_family(g), has_max98357a, choice),
            g,
        ),
{
}

/// The max98357a probe changes nothing but the max98357a flag: for one family and one
/// choice, two probe results give both AVS (perhaps with different flags) or the very same
/// setup.
pub proof fn law_probe_changes_only_the_flag(
    f: BoardFamily,
    choice: Option<AudioChoice>,
    has1: bool,
    has2: bool,
)
    ensures
        (spec_select_setup(f, has1, choice) is Avs) == (spec_select_setup(f, has2, choice) is Avs),
        !(spec_select_setup(f, has1, choice) is Avs) ==> spec_select_setup(f, has1, choice)
            == spec_select_setup(f, has2, choice),
{
}

/// Where AVS is chosen, the max98357a overlay comes with it exactly when the amplifier was
/// found and the user asked for it.
pub proof fn law_max98357a_flag_exact(
    f: BoardFamily,
    has_max98357a: bool,
    choice: Option<AudioChoice>,
)
    ensures
        spec_select_setup(f, has_max98357a, choice) is Avs ==> (spec_select_setup(
            f,
            has_max98357a,
            choice,
        )->max98357a <==> (has_max98357a && choice == Some(AudioChoice::AvsWithMax98357a))),
{
}

/// On an Apollo Lake board the user's choice alone decides between SOF and AVS: SOF where the
/// user chose SOF or made no choice, AVS where the user chose either AVS setup, whatever the
/// probe found.
pub proof fn law_apollo_lake_choice_decides(has_max98357a: bool, choice: Option<AudioChoice>)
    ensures
        (spec_select_setup(BoardFamily::ApolloLake, has_max98357a, choice) == AudioSetup::Sof)
            <==> (choice is None || choice == Some(AudioChoice::Sof)),
        (spec_select_setup(BoardFamily::ApolloLake, has_max98357a, choice) is Avs) <==> (
        choice == Some(AudioChoice::AvsWithoutMax98357a) || choice == Some(
            AudioChoice::AvsWithMax98357a,
        )),
{
}

/// On a board of a family that asks the user, choosing AVS with max98357a starts the AVS
/// setup, and its sixth step announces whether max98357a is enabled: it is exactly when the
/// amplifier was found.
pub proof fn law_avs_with_max98357a_choice_runs_avs(g: Seq<char>, has_max98357a: bool)
    requires
        spec_needs_probe(spec_board_family(g)),
    ensures
        ({
            let steps = spec_service_steps(
                Some(g),
                has_max98357a,
                Some(AudioChoice::AvsWithMax98357a),
            );
            &&& steps[0] == ServiceStepView::Log("Enabling AVS"@)
            &&& steps[5] == ServiceStepView::Log(
                if has_max98357a {
                    "Enabling max98357a"@
                } else {
                    "Not enabling max98357a"@
                },
            )
        }),
{
}

/// On an Apollo Lake board, choosing AVS without max98357a starts the AVS setup and leaves
/// max98357a out, and choosing SOF, or nothing, starts the SOF setup, whatever the probe
/// found.
pub proof fn law_apollo_lake_explicit_choices(g: Seq<char>, has_max98357a: bool)
    requires
        spec_board_family(g) == BoardFamily::ApolloLake,
    ensures
        spec_service_steps(Some(g), has_max98357a, Some(AudioChoice::AvsWithoutMax98357a))[0]
            == ServiceStepView::Log("Enabling AVS"@),
        spec_service_steps(Some(g), has_max98357a, Some(AudioChoice::AvsWithoutMax98357a))[5]
            == ServiceStepView::Log("Not enabling max98357a"@),
        spec_service_steps(Some(g), has_max98357a, Some(AudioChoice::Sof))[0]
            == ServiceStepView::Log("Enabling SOF audio"@),
        spec_service_steps(Some(g), has_max98357a, None)[0] == ServiceStepView::Log(
            "Enabling SOF audio"@,
        ),
{
}

/// Only Apollo Lake offers a choice of driver: every other family gets its one setup, AVS for
/// Skylake and Kaby Lake, whatever the probe found and the user chose.
pub proof fn law_driver_fixed_outside_apollo_lake(
    f: BoardFamily,
    has_max98357a: bool,
    choice: Option<AudioChoice>,
)
    requires
        f != BoardFamily::ApolloLake,
    ensures
        f == BoardFamily::Skylake ==> spec_select_setup(f, has_max98357a, choice) is Avs,
        f == BoardFamily::Braswell ==> spec_select_setup(f, has_max98357a, choice)
            == AudioSetup::Bsw,
        f == BoardFamily::Sof ==> spec_select_setup(f, has_max98357a, choice) == AudioSetup::Sof,
        f == BoardFamily::Amd ==> spec_select_setup(f, has_max98357a, choice) == AudioSetup::Amd,
        f == BoardFamily::Mediatek ==> spec_select_setup(f, has_max98357a, choice)
            == AudioSetup::Mt8183,
        f == BoardFamily::Unsupported ==> spec_select_setup(f, has_max98357a, choice)
            == AudioSetup::Unsupported,
{
}

/// A Skylake or Kaby Lake board always starts the AVS setup.
pub proof fn law_skylake_runs_avs(g: Seq<char>, has_max98357a: bool, choice: Option<AudioChoice>)
    requires
        spec_board_family(g) == BoardFamily::Skylake,
    ensures
        spec_service_steps(Some(g), has_max98357a, choice)[0] == ServiceStepView::Log(
            "Enabling AVS"@,
        ),
{
}

} // verus!
