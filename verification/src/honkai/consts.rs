use vstd::prelude::*;

verus! {

/// The game API
pub const API_URI: &'static str = "https://sdk-os-static.hoyoverse.com/bh3_global/mdk/launcher/api/resource?key=gcStgarh&launcher_id=10";

/// Name of the game's data folder
pub const DATA_FOLDER_NAME: &'static str = "BH3_Data";

pub open spec fn spec_telemetry_servers() -> Seq<Seq<char>> {
    seq!["log-upload-os.hoyoverse.com"@, "overseauspider.yuanshen.com"@]
}

/// Telemetry servers of the game
pub fn telemetry_servers() -> (r: &'static [&'static str])
    ensures
        r@.map_values(|s: &str| s@) == spec_telemetry_servers(),
{
    let r: &'static [&'static str] = &["log-upload-os.hoyoverse.com", "overseauspider.yuanshen.com"];
    assert(r@.map_values(|s: &str| s@) =~= spec_telemetry_servers());
    r
}

} // verus!
