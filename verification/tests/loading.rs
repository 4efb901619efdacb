use scr::FileLoader;
use scr::FileType;
use scr::loading::from_url;
use scr::loading::load_file;
use scr::url::http_url;
use scr::url::https_url;

#[test]
fn loader_plans_url_and_path() {
    let loader = FileLoader::new(
        "scrapeme.live/wp-content/uploads/2018/08/011.png",
        "example",
        FileType::Png,
    );
    assert_eq!(
        loader.get_url(),
        "https://scrapeme.live/wp-content/uploads/2018/08/011.png"
    );
    assert_eq!(loader.get_file(), "../example.png");
}

#[test]
fn from_url_plans_a_load() {
    let loader = from_url("scrapeme.live/shop/data", "prices", FileType::Json);
    assert_eq!(loader.get_url(), "https://scrapeme.live/shop/data");
    assert_eq!(loader.get_file(), "../prices.json");
}

#[test]
fn load_file_plans_a_load() {
    let loader = load_file("scrapeme.live/shop/report", "report", FileType::Xlsx);
    assert_eq!(loader.get_url(), "https://scrapeme.live/shop/report");
    assert_eq!(loader.get_file(), "../report.xlsx");
}

#[test]
fn every_file_type_extension() {
    assert_eq!(FileType::Json.extension(), "json");
    assert_eq!(FileType::Png.extension(), "png");
    assert_eq!(FileType::Jpeg.extension(), "jpeg");
    assert_eq!(FileType::Jpg.extension(), "jpg");
    assert_eq!(FileType::Xlsx.extension(), "xlsx");
    assert_eq!(FileType::Txt.extension(), "txt");
}

#[test]
fn scheme_prefixes() {
    assert_eq!(https_url("scrapeme.live/shop/"), "https://scrapeme.live/shop/");
    assert_eq!(http_url("scrapeme.live/shop/"), "http://scrapeme.live/shop/");
    assert_eq!(https_url(""), "https://");
}
