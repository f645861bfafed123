//! The upstream data catalog: which agricultural-parcel region serves a departement, which
//! database a catalog page belongs to, and which of its download links is the newest.
use vstd::prelude::*;

use crate::regions::{selected, views};
use crate::text::{contains_text, str_contains, str_eq};

verus! {

/// The agricultural-parcel region that publishes the parcels of departement `code`.
pub open spec fn parcel_region_of(code: Seq<char>) -> Option<Seq<char>> {
    if code == "1"@ || code == "3"@ || code == "7"@ || code == "15"@ || code == "26"@ || code == "38"@ || code == "42"@ || code == "43"@ || code == "63"@ || code == "69"@ || code == "73"@ || code == "74"@ {
        Some("84"@)
    } else if code == "21"@ || code == "25"@ || code == "39"@ || code == "58"@ || code == "70"@ || code == "71"@ || code == "89"@ || code == "90"@ {
        Some("27"@)
    } else if code == "22"@ || code == "29"@ || code == "35"@ || code == "56"@ {
        Some("53"@)
    } else if code == "18"@ || code == "28"@ || code == "36"@ || code == "37"@ || code == "41"@ || code == "45"@ {
        Some("24"@)
    } else if code == "2A"@ || code == "2B"@ {
        Some("94"@)
    } else if code == "8"@ || code == "10"@ || code == "51"@ || code == "52"@ || code == "54"@ || code == "55"@ || code == "57"@ || code == "67"@ || code == "68"@ || code == "88"@ {
        Some("44"@)
    } else if code == "2"@ || code == "59"@ || code == "60"@ || code == "62"@ || code == "80"@ {
        Some("32"@)
    } else if code == "75"@ || code == "77"@ || code == "78"@ || code == "91"@ || code == "92"@ || code == "93"@ || code == "94"@ || code == "95"@ {
        Some("11"@)
    } else if code == "14"@ || code == "27"@ || code == "50"@ || code == "61"@ || code == "76"@ {
        Some("28"@)
    } else if code == "16"@ || code == "17"@ || code == "19"@ || code == "23"@ || code == "24"@ || code == "33"@ || code == "40"@ || code == "47"@ || code == "64"@ || code == "79"@ || code == "86"@ || code == "87"@ {
        Some("75"@)
    } else if code == "9"@ || code == "11"@ || code == "12"@ || code == "30"@ || code == "31"@ || code == "32"@ || code == "34"@ || code == "46"@ || code == "48"@ || code == "65"@ || code == "66"@ || code == "81"@ || code == "82"@ {
        Some("76"@)
    } else if code == "44"@ || code == "49"@ || code == "53"@ || code == "72"@ || code == "85"@ {
        Some("52"@)
    } else if code == "4"@ || code == "5"@ || code == "6"@ || code == "13"@ || code == "83"@ || code == "84"@ {
        Some("93"@)
    } else if code == "971"@ {
        Some("01"@)
    } else if code == "972"@ {
        Some("02"@)
    } else if code == "973"@ {
        Some("03"@)
    } else if code == "974"@ {
        Some("04"@)
    } else if code == "976"@ {
        Some("06"@)
    } else {
        None
    }
}

/// The agricultural-parcel region that publishes the parcels of departement `code`, if any.
pub fn get_rpg_for_dep_code(code: &str) -> (r: Option<&'static str>)
    ensures
        match r {
            Some(s) => parcel_region_of(code@) == Some(s@),
            None => parcel_region_of(code@) is None,
        },
{
    if str_eq(code, "1") || str_eq(code, "3") || str_eq(code, "7") || str_eq(code, "15") || str_eq(code, "26") || str_eq(code, "38") || str_eq(code, "42") || str_eq(code, "43") || str_eq(code, "63") || str_eq(code, "69") || str_eq(code, "73") || str_eq(code, "74") {
        Some("84")
    } else if str_eq(code, "21") || str_eq(code, "25") || str_eq(code, "39") || str_eq(code, "58") || str_eq(code, "70") || str_eq(code, "71") || str_eq(code, "89") || str_eq(code, "90") {
        Some("27")
    } else if str_eq(code, "22") || str_eq(code, "29") || str_eq(code, "35") || str_eq(code, "56") {
        Some("53")
    } else if str_eq(code, "18") || str_eq(code, "28") || str_eq(code, "36") || str_eq(code, "37") || str_eq(code, "41") || str_eq(code, "45") {
        Some("24")
    } else if str_eq(code, "2A") || str_eq(code, "2B") {
        Some("94")
    } else if str_eq(code, "8") || str_eq(code, "10") || str_eq(code, "51") || str_eq(code, "52") || str_eq(code, "54") || str_eq(code, "55") || str_eq(code, "57") || str_eq(code, "67") || str_eq(code, "68") || str_eq(code, "88") {
        Some("44")
    } else if str_eq(code, "2") || str_eq(code, "59") || str_eq(code, "60") || str_eq(code, "62") || str_eq(code, "80") {
        Some("32")
    } else if str_eq(code, "75") || str_eq(code, "77") || str_eq(code, "78") || str_eq(code, "91") || str_eq(code, "92") || str_eq(code, "93") || str_eq(code, "94") || str_eq(code, "95") {
        Some("11")
    } else if str_eq(code, "14") || str_eq(code, "27") || str_eq(code, "50") || str_eq(code, "61") || str_eq(code, "76") {
        Some("28")
    } else if str_eq(code, "16") || str_eq(code, "17") || str_eq(code, "19") || str_eq(code, "23") || str_eq(code, "24") || str_eq(code, "33") || str_eq(code, "40") || str_eq(code, "47") || str_eq(code, "64") || str_eq(code, "79") || str_eq(code, "86") || str_eq(code, "87") {
        Some("75")
    } else if str_eq(code, "9") || str_eq(code, "11") || str_eq(code, "12") || str_eq(code, "30") || str_eq(code, "31") || str_eq(code, "32") || str_eq(code, "34") || str_eq(code, "46") || str_eq(code, "48") || str_eq(code, "65") || str_eq(code, "66") || str_eq(code, "81") || str_eq(code, "82") {
        Some("76")
    } else if str_eq(code, "44") || str_eq(code, "49") || str_eq(code, "53") || str_eq(code, "72") || str_eq(code, "85") {
        Some("52")
    } else if str_eq(code, "4") || str_eq(code, "5") || str_eq(code, "6") || str_eq(code, "13") || str_eq(code, "83") || str_eq(code, "84") {
        Some("93")
    } else if str_eq(code, "971") {
        Some("01")
    } else if str_eq(code, "972") {
        Some("02")
    } else if str_eq(code, "973") {
        Some("03")
    } else if str_eq(code, "974") {
        Some("04")
    } else if str_eq(code, "976") {
        Some("06")
    } else {
        None
    }
}

/// The upstream databases.
#[derive(Clone, Copy, Debug, PartialEq, Eq, Structural)]
pub enum DBType {
    /// Forest and vegetation formations.
    FORET,
    /// Topographic features.
    TOPO,
    /// Agricultural parcels.
    RPG,
}

/// The database of a catalog page, from its URL.
pub open spec fn db_of_url(url: Seq<char>) -> Option<DBType> {
    if contains_text(url, "bdforet#"@) {
        Some(DBType::FORET)
    } else if contains_text(url, "bdtopo#"@) {
        Some(DBType::TOPO)
    } else if contains_text(url, "rpg#"@) {
        Some(DBType::RPG)
    } else {
        None
    }
}

/// The prefix of a region code in the database's file names.
pub open spec fn code_prefix(db: DBType) -> Seq<char> {
    match db {
        DBType::RPG => "R"@,
        _ => "D0"@,
    }
}

impl DBType {
    pub fn from_url(url: &str) -> (r: Option<DBType>)
        ensures
            r == db_of_url(url@),
    {
        if str_contains(url, "bdforet#") {
            Some(DBType::FORET)
        } else if str_contains(url, "bdtopo#") {
            Some(DBType::TOPO)
        } else if str_contains(url, "rpg#") {
            Some(DBType::RPG)
        } else {
            None
        }
    }

    pub fn code_prefix(&self) -> (r: &'static str)
        ensures
            r@ == code_prefix(*self),
    {
        match self {
            DBType::RPG => "R",
            _ => "D0",
        }
    }
}

/// The stem under which a downloaded archive is cached, from its URL: `BDTOPO`, `BDFORET`, `RPG`
/// or `unknown`.
pub open spec fn archive_label(url: Seq<char>) -> Seq<char> {
    if contains_text(url, "BDTOPO"@) {
        "BDTOPO"@
    } else if contains_text(url, "BDFORET"@) {
        "BDFORET"@
    } else if contains_text(url, "RPG"@) {
        "RPG"@
    } else {
        "unknown"@
    }
}

/// The file name of the cached archive downloaded from `url` for region `code`:
/// `{label}_{code}.7z`.
pub fn archive_file_name(url: &str, code: &str) -> (r: String)
    ensures
        r@ == archive_label(url@) + "_"@ + code@ + ".7z"@,
{
    let label = if str_contains(url, "BDTOPO") {
        "BDTOPO"
    } else if str_contains(url, "BDFORET") {
        "BDFORET"
    } else if str_contains(url, "RPG") {
        "RPG"
    } else {
        "unknown"
    };
    String::from_str(label).concat("_").concat(code).concat(".7z")
}

/// The `href` values of the anchors of an HTML document, in document order.
pub uninterp spec fn anchor_hrefs_of(html: Seq<char>) -> Seq<Seq<char>>;

/// The first run of the form `dddd-dd-dd` in a text.
pub uninterp spec fn first_iso_date_of(s: Seq<char>) -> Option<Seq<char>>;

/// The day number since the common era of a `YYYY-MM-DD` date, if it is a valid date.
pub uninterp spec fn iso_date_days_of(s: Seq<char>) -> Option<int>;

/// Relies on scraper's `Html::parse_document`, `Selector::parse("a")` and `ElementRef::attr`:
/// the `href` attribute of each anchor element of the document, in document order.
#[verifier::external_body]
fn anchor_hrefs(html: &str) -> (r: Vec<String>)
    ensures
        views(r@) == anchor_hrefs_of(html@),
{
    let document = scraper::Html::parse_document(html);
    match scraper::Selector::parse("a") {
        Ok(anchors) => document.select(&anchors).filter_map(|e| e.value().attr("href")).map(
            |h| h.to_string(),
        ).collect(),
        Err(_) => Vec::new(),
    }
}

/// Relies on regex's `Regex::captures` with the pattern `(\d{4}-\d{2}-\d{2})`: the text of the
/// first match, if any.
#[verifier::external_body]
fn first_iso_date(s: &str) -> (r: Option<String>)
    ensures
        match r {
            Some(m) => first_iso_date_of(s@) == Some(m@),
            None => first_iso_date_of(s@) is None,
        },
{
    regex::Regex::new(r"(\d{4}-\d{2}-\d{2})").ok().and_then(|re| re.captures(s).and_then(
        |c| c.get(1).map(|m| m.as_str().to_string()),
    ))
}

/// Relies on chrono's `NaiveDate::parse_from_str` with the format `%Y-%m-%d`, the date given as
/// its `num_days_from_ce`.
#[verifier::external_body]
fn parse_iso_date(s: &str) -> (r: Option<i32>)
    ensures
        match r {
            Some(d) => iso_date_days_of(s@) == Some(d as int),
            None => iso_date_days_of(s@) is None,
        },
{
    chrono::NaiveDate::parse_from_str(s, "%Y-%m-%d").ok().map(
        |d| chrono::Datelike::num_days_from_ce(&d),
    )
}

/// Day number since the common era of 1970-01-01, the date of a link that carries none.
pub const UNDATED_DAYS: i32 = 719163;

/// The date of a download link, as a day number: the first `dddd-dd-dd` in it when that is a
/// valid date, else 1970-01-01.
pub open spec fn link_date(href: Seq<char>) -> int {
    match first_iso_date_of(href) {
        Some(m) => match iso_date_days_of(m) {
            Some(d) => d,
            None => UNDATED_DAYS as int,
        },
        None => UNDATED_DAYS as int,
    }
}

fn link_date_exec(href: &str) -> (r: i32)
    ensures
        r == link_date(href@),
{
    match first_iso_date(href) {
        Some(m) => match parse_iso_date(m.as_str()) {
            Some(d) => d,
            None => UNDATED_DAYS,
        },
        None => UNDATED_DAYS,
    }
}

/// `i` is the first position of a largest value of `keys`.
pub open spec fn is_first_max(keys: Seq<int>, i: int) -> bool {
    &&& 0 <= i < keys.len()
    &&& forall|j: int| 0 <= j < keys.len() ==> keys[j] <= keys[i]
    &&& forall|j: int| 0 <= j < i ==> keys[j] < keys[i]
}

/// The first position of a largest key: the head of a list stably sorted by descending key.
pub fn pick_latest(keys: &Vec<i32>) -> (r: Option<usize>)
    ensures
        r is None <==> keys@.len() == 0,
        r matches Some(i) ==> is_first_max(keys@.map_values(|k: i32| k as int), i as int),
{
    if keys.len() == 0 {
        return None;
    }
    let ghost ks = keys@.map_values(|k: i32| k as int);
    let mut best: usize = 0;
    let mut i: usize = 1;
    while i < keys.len()
        invariant
            ks == keys@.map_values(|k: i32| k as int),
            1 <= i <= keys@.len(),
            best < i,
            forall|j: int| 0 <= j < i ==> ks[j] <= ks[best as int],
            forall|j: int| 0 <= j < best ==> ks[j] < ks[best as int],
        decreases keys@.len() - i,
    {
        if keys[i] > keys[best] {
            best = i;
        }
        i = i + 1;
    }
    Some(best)
}

/// Whether a link is a shapefile archive of region `code` in database `db`.
pub open spec fn is_shp_link(href: Seq<char>, code: Seq<char>, db: DBType) -> bool {
    contains_text(href, code_prefix(db) + code) && contains_text(href, "SHP"@)
}

/// Whether a link is of version 2 of the forest database.
pub open spec fn is_forest_v2(href: Seq<char>) -> bool {
    contains_text(href, "BDFORET_2-0"@)
}

/// The shapefile links of region `code` among `hrefs`, in their order.
pub open spec fn shp_links(hrefs: Seq<Seq<char>>, code: Seq<char>, db: DBType) -> Seq<Seq<char>> {
    selected(hrefs, Seq::new(hrefs.len(), |i: int| is_shp_link(hrefs[i], code, db)), hrefs.len() as int)
}

/// The links of version 2 of the forest database among `links`, in their order.
pub open spec fn forest_v2_links(links: Seq<Seq<char>>) -> Seq<Seq<char>> {
    selected(links, Seq::new(links.len(), |i: int| is_forest_v2(links[i])), links.len() as int)
}

/// The links that compete for being the newest: the shapefile links, and for the forest
/// database only those of its version 2.
pub open spec fn competing_links(hrefs: Seq<Seq<char>>, code: Seq<char>, db: DBType) -> Seq<Seq<char>> {
    if db == DBType::FORET {
        forest_v2_links(shp_links(hrefs, code, db))
    } else {
        shp_links(hrefs, code, db)
    }
}

/// Why no download link could be chosen.
#[derive(Clone, Copy, Debug, PartialEq, Eq, Structural)]
pub enum UrlError {
    /// The catalog URL names no known database.
    UnsupportedDatabase,
    /// No shapefile link of the region.
    NoFileFound,
    /// Shapefile links of the region, but none of version 2 of the forest database.
    NoForestV2File,
}

impl UrlError {
    pub fn message(&self) -> (r: &'static str)
        ensures
            r@ == (match *self {
                UrlError::UnsupportedDatabase => "Unsupported database type"@,
                UrlError::NoFileFound => "No file found"@,
                UrlError::NoForestV2File => "No BDFORET V2 file found"@,
            }),
    {
        match self {
            UrlError::UnsupportedDatabase => "Unsupported database type",
            UrlError::NoFileFound => "No file found",
            UrlError::NoForestV2File => "No BDFORET V2 file found",
        }
    }
}

proof fn lemma_selected_step<T>(items: Seq<T>, sel: Seq<bool>, i: int)
    requires
        0 <= i < items.len(),
        sel.len() == items.len(),
    ensures
        selected(items, sel, i + 1) == (if sel[i] {
            selected(items, sel, i).push(items[i])
        } else {
            selected(items, sel, i)
        }),
{
}

/// The newest shapefile link of region `code` in database `db` among `hrefs`: the links naming
/// the region's file prefix and `SHP` (for the forest database, only those of its version 2),
/// the first of those with the latest date.
pub fn select_shp_url(hrefs: &Vec<String>, code: &str, db: DBType) -> (r: Result<String, UrlError>)
    ensures
        shp_links(views(hrefs@), code@, db).len() == 0 ==> r == Err::<String, UrlError>(
            UrlError::NoFileFound,
        ),
        shp_links(views(hrefs@), code@, db).len() > 0 && competing_links(views(hrefs@), code@, db).len()
            == 0 ==> r == Err::<String, UrlError>(UrlError::NoForestV2File),
        r is Ok <==> competing_links(views(hrefs@), code@, db).len() > 0,
        r matches Ok(u) ==> {
            let c = competing_links(views(hrefs@), code@, db);
            exists|i: int|
                is_first_max(c.map_values(|h: Seq<char>| link_date(h)), i) && #[trigger] c[i] == u@
        },
{
    let ghost hv = views(hrefs@);
    let ghost sel1 = Seq::new(hv.len(), |i: int| is_shp_link(hv[i], code@, db));
    let prefix = String::from_str(db.code_prefix()).concat(code);
    let mut links: Vec<String> = Vec::new();
    let mut i: usize = 0;
    while i < hrefs.len()
        invariant
            hv == views(hrefs@),
            sel1 == Seq::new(hv.len(), |i: int| is_shp_link(hv[i], code@, db)),
            prefix@ == code_prefix(db) + code@,
            i <= hrefs@.len(),
            views(links@) == selected(hv, sel1, i as int),
        decreases hrefs@.len() - i,
    {
        proof {
            lemma_selected_step(hv, sel1, i as int);
        }
        let h = hrefs[i].as_str();
        if str_contains(h, prefix.as_str()) && str_contains(h, "SHP") {
            let ghost before = links@;
            links.push(hrefs[i].clone());
            assert(views(links@) =~= views(before).push(hv[i as int]));
        }
        i = i + 1;
    }
    if links.len() == 0 {
        return Err(UrlError::NoFileFound);
    }
    let candidates = if db == DBType::FORET {
        let ghost lv = views(links@);
        let ghost sel2 = Seq::new(lv.len(), |i: int| is_forest_v2(lv[i]));
        let mut kept: Vec<String> = Vec::new();
        let mut i: usize = 0;
        while i < links.len()
            invariant
                lv == views(links@),
                sel2 == Seq::new(lv.len(), |i: int| is_forest_v2(lv[i])),
                i <= links@.len(),
                views(kept@) == selected(lv, sel2, i as int),
            decreases links@.len() - i,
        {
            proof {
                lemma_selected_step(lv, sel2, i as int);
            }
            if str_contains(links[i].as_str(), "BDFORET_2-0") {
                let ghost before = kept@;
                kept.push(links[i].clone());
                assert(views(kept@) =~= views(before).push(lv[i as int]));
            }
            i = i + 1;
        }
        if kept.len() == 0 {
            return Err(UrlError::NoForestV2File);
        }
        kept
    } else {
        links
    };
    let ghost c = views(candidates@);
    assert(c == competing_links(hv, code@, db));
    let mut keys: Vec<i32> = Vec::new();
    let mut k: usize = 0;
    while k < candidates.len()
        invariant
            c == views(candidates@),
            k <= candidates@.len(),
            keys@.len() == k,
            forall|j: int| 0 <= j < k ==> (#[trigger] keys@[j]) as int == link_date(c[j]),
        decreases candidates@.len() - k,
    {
        keys.push(link_date_exec(candidates[k].as_str()));
        k = k + 1;
    }
    assert(keys@.map_values(|x: i32| x as int) =~= c.map_values(|h: Seq<char>| link_date(h)));
    match pick_latest(&keys) {
        Some(b) => {
            let u = candidates[b].clone();
            assert(c[b as int] == u@);
            Ok(u)
        },
        None => Err(UrlError::NoFileFound),
    }
}

/// The newest shapefile link of departement `code` on the catalog page `page` fetched from
/// `url`: the database comes from the URL, the links from the page's anchors.
pub fn get_departement_shp_file_url(code: &str, url: &str, page: &str) -> (r: Result<String, UrlError>)
    ensures
        db_of_url(url@) is None <==> r == Err::<String, UrlError>(UrlError::UnsupportedDatabase),
        db_of_url(url@) matches Some(db) ==> {
            let c = competing_links(anchor_hrefs_of(page@), code@, db);
            &&& (r is Ok <==> c.len() > 0)
            &&& (shp_links(anchor_hrefs_of(page@), code@, db).len() == 0 ==> r == Err::<String, UrlError>(UrlError::NoFileFound))
            &&& (r matches Ok(u) ==> exists|i: int|
                is_first_max(c.map_values(|h: Seq<char>| link_date(h)), i) && #[trigger] c[i] == u@)
        },
{
    let db = match DBType::from_url(url) {
        Some(db) => db,
        None => {
            return Err(UrlError::UnsupportedDatabase);
        },
    };
    let hrefs = anchor_hrefs(page);
    select_shp_url(&hrefs, code, db)
}

/// The catalog page of the topographic database.
pub const TOPO_CATALOG_URL: &'static str = "https://geoservices.ign.fr/bdtopo#";

/// The catalog page of the forest database.
pub const FOREST_CATALOG_URL: &'static str = "https://geoservices.ign.fr/bdforet#";

/// The catalog page of the agricultural-parcel database.
pub const PARCELS_CATALOG_URL: &'static str = "https://geoservices.ign.fr/rpg#";

/// One catalog page to consult for a region, and the code to look for on it.
pub struct CatalogRequest {
    pub region: String,
    pub catalog_url: &'static str,
    pub lookup_code: String,
}

/// The three catalog pages of each region, in order topographic, forest, parcels; parcels are
/// published by region, so their page is searched for the departement's parcel region. A
/// departement without a parcel region is returned as the error.
pub fn catalog_requests(codes: &Vec<String>) -> (r: Result<Vec<CatalogRequest>, String>)
    ensures
        r is Ok <==> forall|i: int| 0 <= i < codes@.len() ==> parcel_region_of((#[trigger] codes@[i])@) is Some,
        r matches Err(c) ==> exists|i: int| 0 <= i < codes@.len() && (#[trigger] codes@[i])@ == c@ && parcel_region_of(c@) is None,
        r matches Ok(v) ==> {
            &&& v@.len() == 3 * codes@.len()
            &&& forall|i: int| 0 <= i < codes@.len() ==> {
                &&& (#[trigger] v@[3 * i]).region@ == codes@[i]@
                &&& v@[3 * i].catalog_url == TOPO_CATALOG_URL
                &&& v@[3 * i].lookup_code@ == codes@[i]@
                &&& v@[3 * i + 1].region@ == codes@[i]@
                &&& v@[3 * i + 1].catalog_url == FOREST_CATALOG_URL
                &&& v@[3 * i + 1].lookup_code@ == codes@[i]@
                &&& v@[3 * i + 2].region@ == codes@[i]@
                &&& v@[3 * i + 2].catalog_url == PARCELS_CATALOG_URL
                &&& Some(v@[3 * i + 2].lookup_code@) == parcel_region_of(codes@[i]@)
            }
        },
{
    let mut out: Vec<CatalogRequest> = Vec::new();
    let mut i: usize = 0;
    while i < codes.len()
        invariant
            i <= codes@.len(),
            out@.len() == 3 * i,
            forall|j: int| 0 <= j < i ==> parcel_region_of((#[trigger] codes@[j])@) is Some,
            forall|j: int| 0 <= j < i ==> {
                &&& (#[trigger] out@[3 * j]).region@ == codes@[j]@
                &&& out@[3 * j].catalog_url == TOPO_CATALOG_URL
                &&& out@[3 * j].lookup_code@ == codes@[j]@
                &&& out@[3 * j + 1].region@ == codes@[j]@
                &&& out@[3 * j + 1].catalog_url == FOREST_CATALOG_URL
                &&& out@[3 * j + 1].lookup_code@ == codes@[j]@
                &&& out@[3 * j + 2].region@ == codes@[j]@
                &&& out@[3 * j + 2].catalog_url == PARCELS_CATALOG_URL
                &&& Some(out@[3 * j + 2].lookup_code@) == parcel_region_of(codes@[j]@)
            },
        decreases codes@.len() - i,
    {
        let code = codes[i].as_str();
        let parcels = match get_rpg_for_dep_code(code) {
            Some(p) => p,
            None => {
                return Err(codes[i].clone());
            },
        };
        let ghost before = out@;
        out.push(CatalogRequest { region: codes[i].clone(), catalog_url: TOPO_CATALOG_URL, lookup_code: codes[i].clone() });
        out.push(CatalogRequest { region: codes[i].clone(), catalog_url: FOREST_CATALOG_URL, lookup_code: codes[i].clone() });
        out.push(CatalogRequest { region: codes[i].clone(), catalog_url: PARCELS_CATALOG_URL, lookup_code: String::from_str(parcels) });
        assert forall|j: int| 0 <= j < i + 1 implies {
                &&& (#[trigger] out@[3 * j]).region@ == codes@[j]@
                &&& out@[3 * j].catalog_url == TOPO_CATALOG_URL
                &&& out@[3 * j].lookup_code@ == codes@[j]@
                &&& out@[3 * j + 1].region@ == codes@[j]@
                &&& out@[3 * j + 1].catalog_url == FOREST_CATALOG_URL
                &&& out@[3 * j + 1].lookup_code@ == codes@[j]@
                &&& out@[3 * j + 2].region@ == codes@[j]@
                &&& out@[3 * j + 2].catalog_url == PARCELS_CATALOG_URL
                &&& Some(out@[3 * j + 2].lookup_code@) == parcel_region_of(codes@[j]@)
            } by {
            if j < i {
                assert(out@[3 * j] == before[3 * j]);
                assert(out@[3 * j + 1] == before[3 * j + 1]);
                assert(out@[3 * j + 2] == before[3 * j + 2]);
            }
        }
        i = i + 1;
    }
    Ok(out)
}

} // verus!
