use firefront_gis::catalog::{
    archive_file_name, get_departement_shp_file_url, get_rpg_for_dep_code, pick_latest,
    select_shp_url, DBType, UrlError,
};

fn page(links: &[&str]) -> String {
    let mut s = String::from("<html><body><ul>");
    for l in links {
        s.push_str(&format!("<li><a href=\"{}\">file</a></li>", l));
    }
    s.push_str("<a>no link</a></ul></body></html>");
    s
}

#[test]
fn parcel_region_of_departements() {
    assert_eq!(get_rpg_for_dep_code("2A"), Some("94"));
    assert_eq!(get_rpg_for_dep_code("2B"), Some("94"));
    assert_eq!(get_rpg_for_dep_code("75"), Some("11"));
    assert_eq!(get_rpg_for_dep_code("1"), Some("84"));
    assert_eq!(get_rpg_for_dep_code("976"), Some("06"));
    assert_eq!(get_rpg_for_dep_code("01"), None);
    assert_eq!(get_rpg_for_dep_code(""), None);
}

#[test]
fn database_from_catalog_url() {
    assert_eq!(DBType::from_url("https://geoservices.ign.fr/bdforet#telechargementv2"), Some(DBType::FORET));
    assert_eq!(DBType::from_url("https://geoservices.ign.fr/bdtopo#telechargementgpkgreg"), Some(DBType::TOPO));
    assert_eq!(DBType::from_url("https://geoservices.ign.fr/rpg#"), Some(DBType::RPG));
    assert_eq!(DBType::from_url("https://geoservices.ign.fr/other"), None);
    assert_eq!(DBType::RPG.code_prefix(), "R");
    assert_eq!(DBType::TOPO.code_prefix(), "D0");
}

#[test]
fn newest_link_wins() {
    let hrefs: Vec<String> = vec![
        "https://x/BDTOPO_3-3_TOUSTHEMES_SHP_LAMB93_D02A_2023-03-15.7z".into(),
        "https://x/BDTOPO_3-3_TOUSTHEMES_SHP_LAMB93_D02A_2024-06-15.7z".into(),
        "https://x/BDTOPO_3-3_TOUSTHEMES_GPKG_LAMB93_D02A_2025-01-01.7z".into(),
        "https://x/BDTOPO_3-3_TOUSTHEMES_SHP_LAMB93_D02B_2025-01-01.7z".into(),
        "https://x/BDTOPO_3-3_TOUSTHEMES_SHP_LAMB93_D02A_2024-06-15_bis.7z".into(),
    ];
    assert_eq!(select_shp_url(&hrefs, "2A", DBType::TOPO).unwrap(), hrefs[1]);
    assert_eq!(select_shp_url(&hrefs, "2C", DBType::TOPO), Err(UrlError::NoFileFound));
}

#[test]
fn invalid_dates_count_as_undated() {
    let hrefs: Vec<String> = vec![
        "RPG_2-0_SHP_LAMB93_R94_2023-02-30.7z".into(),
        "RPG_2-0_SHP_LAMB93_R94_1969-12-31.7z".into(),
        "RPG_2-0_SHP_LAMB93_R94.7z".into(),
    ];
    // February 30th is not a date: it ties with the undated link, the earlier one is kept
    assert_eq!(select_shp_url(&hrefs, "94", DBType::RPG).unwrap(), hrefs[0]);
}

#[test]
fn forest_links_must_be_of_version_two() {
    let old: Vec<String> = vec!["BDFORET_1-0__SHP_LAMB93_D02A_2014-04-01.7z".into()];
    assert_eq!(select_shp_url(&old, "2A", DBType::FORET), Err(UrlError::NoForestV2File));
    let both: Vec<String> = vec![
        "BDFORET_1-0__SHP_LAMB93_D02A_2020-04-01.7z".into(),
        "BDFORET_2-0__SHP_LAMB93_D02A_2016-06-01.7z".into(),
    ];
    assert_eq!(select_shp_url(&both, "2A", DBType::FORET).unwrap(), both[1]);
}

#[test]
fn links_are_read_from_the_page() {
    let html = page(&[
        "https://data/BDFORET_2-0__SHP_LAMB93_D02A_2016-06-01.7z",
        "https://data/BDFORET_2-0__SHP_LAMB93_D02A_2019-06-01.7z",
        "https://data/BDFORET_2-0__SHP_LAMB93_D02B_2021-06-01.7z",
    ]);
    let url = "https://geoservices.ign.fr/bdforet#telechargementv2";
    assert_eq!(
        get_departement_shp_file_url("2A", url, &html).unwrap(),
        "https://data/BDFORET_2-0__SHP_LAMB93_D02A_2019-06-01.7z"
    );
    assert_eq!(get_departement_shp_file_url("99", url, &html), Err(UrlError::NoFileFound));
    assert_eq!(
        get_departement_shp_file_url("2A", "https://geoservices.ign.fr/x", &html),
        Err(UrlError::UnsupportedDatabase)
    );
    assert_eq!(UrlError::NoFileFound.message(), "No file found");
}

#[test]
fn first_largest_key_is_picked() {
    assert_eq!(pick_latest(&vec![]), None);
    assert_eq!(pick_latest(&vec![3, 9, 2, 9]), Some(1));
    assert_eq!(pick_latest(&vec![-4]), Some(0));
}

#[test]
fn archive_names_follow_the_url() {
    assert_eq!(archive_file_name("https://x/BDTOPO_3-3.7z", "2A"), "BDTOPO_2A.7z");
    assert_eq!(archive_file_name("https://x/BDFORET_2-0.7z", "2B"), "BDFORET_2B.7z");
    assert_eq!(archive_file_name("https://x/RPG_2-0.7z", "2A"), "RPG_2A.7z");
    assert_eq!(archive_file_name("https://x/other.7z", "2A"), "unknown_2A.7z");
}
