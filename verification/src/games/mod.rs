pub mod genshin;
pub mod package_diff;
pub mod branch_diff;
pub mod honkai;
pub mod pgr;
pub mod star_rail;
pub mod wuwa;
pub mod zzz;
