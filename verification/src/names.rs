use vstd::prelude::*;

use crate::text::{join2, join3};

verus! {

/// Prefix shared by the name of every systemd-sysext overlay the tools build.
pub const EXTENSION_PREFIX: &'static str = "chromebook-audio";

/// The Intel board generations whose audio goes through Sound Open Firmware.
pub const SOF_BOARD_GENERATIONS: [&'static str; 6] = ["glk", "apl", "cml", "tgl", "jsl", "adl"];

/// `EXTENSION_PREFIX`, a dash, then `suffix`.
pub open spec fn prefixed(suffix: Seq<char>) -> Seq<char> {
    EXTENSION_PREFIX@ + "-"@ + suffix
}

/// Name of the overlay of the Sound Open Firmware UCM files of one board generation.
pub open spec fn spec_sof_extension_name(generation: Seq<char>) -> Seq<char> {
    prefixed("sof-"@ + generation)
}

/// Name of the overlay of one AMD platform.
pub open spec fn spec_platform_extension_name(platform: Seq<char>) -> Seq<char> {
    prefixed(platform)
}

/// Name of the overlay that carries the UCM files shared by every board.
pub fn get_common_ucm_extension_name() -> (res: String)
    ensures
        res@ == EXTENSION_PREFIX@ + "-common-ucm"@,
{
    join2(EXTENSION_PREFIX, "-common-ucm")
}

/// Name of the overlay of the AVS driver's UCM files and topologies.
pub fn get_avs_extension_name() -> (res: String)
    ensures
        res@ == EXTENSION_PREFIX@ + "-avs"@,
{
    join2(EXTENSION_PREFIX, "-avs")
}

/// Name of the overlay that adds the max98357a amplifier topology to AVS.
pub fn get_avs_max98357a_extension_name() -> (res: String)
    ensures
        res@ == EXTENSION_PREFIX@ + "-avs-max98357a"@,
{
    join2(EXTENSION_PREFIX, "-avs-max98357a")
}

/// Name of the overlay of the MediaTek mt8183 UCM files.
pub fn get_mt8138_extension_name() -> (res: String)
    ensures
        res@ == EXTENSION_PREFIX@ + "-mt8138"@,
{
    join2(EXTENSION_PREFIX, "-mt8138")
}

/// Name of the overlay of the Sound Open Firmware UCM files of `generation`.
pub fn sof_extension_name(generation: &str) -> (res: String)
    ensures
        res@ == spec_sof_extension_name(generation@),
{
    let r = join3(EXTENSION_PREFIX, "-sof-", generation);
    proof {
        assert(EXTENSION_PREFIX@ + "-sof-"@ + generation@ =~= prefixed("sof-"@ + generation@)) by {
            reveal_strlit("-sof-");
            reveal_strlit("-");
            reveal_strlit("sof-");
        }
    }
    r
}

/// Name of the overlay of the AMD platform `platform`.
pub fn platform_extension_name(platform: &str) -> (res: String)
    ensures
        res@ == spec_platform_extension_name(platform@),
{
    join3(EXTENSION_PREFIX, "-", platform)
}

} // verus!
