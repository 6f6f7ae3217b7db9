use std::io::Write;

use anime_game_core::games::honkai::api::schema::{GameLatestInfo, Response};
use anime_game_core::games::wuwa::api::game::response_json;
use anime_game_core::honkai::json_schemas::versions as older;

#[test]
fn gzip_body_is_unpacked() {
    let json = b"{\"default\": {}}";
    let mut encoder = flate2::write::GzEncoder::new(Vec::new(), flate2::Compression::default());
    encoder.write_all(json).unwrap();
    let body = encoder.finish().unwrap();
    assert_eq!(response_json(&body), Some(json.to_vec()));
    assert_eq!(response_json(b"plain text"), None);
}

#[test]
fn older_api_answer_converts() {
    let latest = older::Latest {
        name: String::new(),
        version: String::from("7.1.0"),
        path: String::from("https://cdn/game.7z"),
        size: String::from("200"),
        md5: String::from("abc"),
        entry: String::new(),
        package_size: String::from("100"),
        decompressed_path: String::from("https://res"),
    };
    let info = GameLatestInfo::from_old(latest.clone());
    assert_eq!(info.version, "7.1.0");
    assert_eq!(info.res_list_url, "https://res");
    assert_eq!(info.game_pkgs.len(), 1);
    assert_eq!(info.game_pkgs[0].size, "100");
    assert_eq!(info.game_pkgs[0].decompressed_size, "200");
    let answer = older::Response {
        retcode: 0,
        message: String::from("OK"),
        data: older::Data { web_url: String::new(), game: older::Game { latest } },
    };
    let converted = Response::from_old(answer);
    assert_eq!(converted.data.game_packages[0].game.biz, "bh3_cn");
    assert_eq!(converted.message, "OK");
}
