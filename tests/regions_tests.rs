use firefront_gis::geometry::BoundingBox;
use firefront_gis::regions::{
    build_regions_graph, find_intersecting_regions, get_neighbors, get_region,
    load_regions_graph, working_region_codes, GraphError, Region, RegionGraph,
};

fn region(code: &str, bb: BoundingBox) -> Region {
    Region::new(code.to_string(), format!("Region {}", code), bb.to_wkt())
}

/// The box whose WKT ring a test region carries as its extent.
fn extent_box(r: &Region) -> BoundingBox {
    let ring = r.extent.trim_start_matches("POLYGON((").trim_end_matches("))");
    let points: Vec<(i64, i64)> = ring
        .split(", ")
        .map(|p| {
            let mut xy = p.split(' ').map(|v| v.parse::<i64>().unwrap());
            (xy.next().unwrap(), xy.next().unwrap())
        })
        .collect();
    BoundingBox::new(points[0].0, points[0].1, points[2].0, points[2].1)
}

fn boxes_meet(a: &Region, b: &Region) -> bool {
    extent_box(a).overlaps(&extent_box(b))
}

fn never(_: &Region, _: &Region) -> bool {
    false
}

fn box_hits(r: &Region, b: &BoundingBox) -> bool {
    extent_box(r).overlaps(b)
}

/// Two departements sharing the edge y = 6110000, and a third one far away.
fn corsica() -> RegionGraph {
    let regions = vec![
        region("2A", BoundingBox::new(1150000, 6030000, 1250000, 6110000)),
        region("2B", BoundingBox::new(1150000, 6110000, 1250000, 6230000)),
        region("75", BoundingBox::new(640000, 6850000, 660000, 6870000)),
    ];
    build_regions_graph(regions, boxes_meet, never).unwrap()
}

fn get_test_bounding_box() -> BoundingBox {
    BoundingBox::new(1210000, 6070000, 1235000, 6095000)
}

#[test]
fn regions_tests_test_build_regions_graph() {
    let regions = vec![
        region("2A", BoundingBox::new(1150000, 6030000, 1250000, 6110000)),
        region("2B", BoundingBox::new(1150000, 6110000, 1250000, 6230000)),
    ];
    let result = build_regions_graph(regions, boxes_meet, never);
    assert!(result.is_ok(), "Building regions graph failed");
}

#[test]
fn utils_tests_test_build_regions_graph() {
    let result = build_regions_graph(vec![region("2A", get_test_bounding_box())], boxes_meet, never);
    assert!(result.is_ok(), "Building regions graph failed");
}

#[test]
fn regions_tests_test_get_neighbors() {
    let neighbors = get_neighbors(&corsica(), "2A").unwrap();
    assert!(!neighbors.is_empty(), "No neighbors found for region 2A");
}

#[test]
fn utils_tests_test_get_neighbors() {
    let neighbors = get_neighbors(&corsica(), "2A").unwrap();
    assert!(!neighbors.is_empty(), "No neighbors found for region 2A");
}

#[test]
fn test_region_intersects() {
    let bb = get_test_bounding_box();
    let region_2a = get_region(&corsica(), "2A").unwrap();
    assert!(region_2a.intersects(&bb, &box_hits), "Bounding box should intersect with region 2A");
}

#[test]
fn test_find_multiple_intersecting_regions() {
    // Cozzano
    let bb = BoundingBox::new(1199000, 6104000, 1219000, 6120000);
    let result = find_intersecting_regions(&corsica(), &bb, box_hits);
    assert!(result.len() >= 2, "Should intersect with at least two regions");
}

#[test]
fn test_no_intersecting_regions() {
    let bb = BoundingBox::new(0, 0, 1, 1);
    let result = find_intersecting_regions(&corsica(), &bb, box_hits);
    assert_eq!(result.len(), 0, "Should have no intersecting regions");
}

#[test]
fn shared_edge_makes_regions_neighbors() {
    let g = corsica();
    let a = get_neighbors(&g, "2A").unwrap();
    assert_eq!(a.iter().map(|r| r.code.clone()).collect::<Vec<_>>(), vec!["2B".to_string()]);
    let b = get_neighbors(&g, "2B").unwrap();
    assert_eq!(b.iter().map(|r| r.code.clone()).collect::<Vec<_>>(), vec!["2A".to_string()]);
    assert!(get_neighbors(&g, "75").unwrap().is_empty());
}

#[test]
fn neighbor_links_are_symmetric() {
    let g = corsica();
    for a in g.regions() {
        for b in g.regions() {
            assert_eq!(a.neighbors.contains(&b.code), b.neighbors.contains(&a.code));
        }
    }
}

#[test]
fn touching_counts_when_not_intersecting() {
    let regions = vec![
        region("A", BoundingBox::new(0, 0, 10, 10)),
        region("B", BoundingBox::new(10, 0, 20, 10)),
        region("C", BoundingBox::new(30, 0, 40, 10)),
    ];
    let touches = |a: &Region, b: &Region| extent_box(a).xmax == extent_box(b).xmin;
    let g = build_regions_graph(regions, never, touches).unwrap();
    assert_eq!(g.regions()[0].neighbors, vec!["B".to_string()]);
    assert_eq!(g.regions()[1].neighbors, vec!["A".to_string()]);
    assert!(g.regions()[2].neighbors.is_empty());
}

#[test]
fn unknown_region_is_an_error() {
    let g = corsica();
    assert_eq!(get_neighbors(&g, "99").err(), Some(GraphError::UnknownRegion("99".to_string())));
    assert_eq!(get_region(&g, "99").err(), Some(GraphError::UnknownRegion("99".to_string())));
    assert_eq!(get_region(&g, "2B").unwrap().name, "Region 2B");
}

#[test]
fn last_record_of_a_code_counts() {
    let mut first = region("2A", BoundingBox::new(0, 0, 10, 10));
    first.name = "old".to_string();
    let regions = vec![
        first,
        region("2B", BoundingBox::new(10, 0, 20, 10)),
        region("2A", BoundingBox::new(100, 0, 110, 10)),
    ];
    let g = build_regions_graph(regions, boxes_meet, never).unwrap();
    assert_eq!(g.regions().len(), 2);
    assert_eq!(g.regions()[0].code, "2B");
    assert_eq!(g.regions()[1].name, "Region 2A");
    // the later 2A lies apart from 2B
    assert!(g.regions()[0].neighbors.is_empty());
    let copy = vec![region("X", get_test_bounding_box()), region("X", get_test_bounding_box())];
    assert_eq!(
        load_regions_graph(copy).err(),
        Some(GraphError::DuplicateRegion("X".to_string()))
    );
}

#[test]
fn loading_checks_the_cached_graph() {
    let g = corsica();
    let copy: Vec<Region> = g.regions().clone();
    assert!(load_regions_graph(copy.clone()).is_ok());

    let mut dangling = copy.clone();
    dangling[2].neighbors.push("2C".to_string());
    assert_eq!(
        load_regions_graph(dangling).err(),
        Some(GraphError::DanglingNeighbor("2C".to_string()))
    );

    let mut one_way = copy.clone();
    one_way[2].neighbors.push("2A".to_string());
    assert_eq!(
        load_regions_graph(one_way).err(),
        Some(GraphError::BrokenLink("75".to_string(), "2A".to_string()))
    );

    let mut repeated = copy;
    repeated[0].neighbors.push("2B".to_string());
    assert!(matches!(load_regions_graph(repeated), Err(GraphError::BrokenLink(_, _))));
}

#[test]
fn add_neighbor_is_idempotent() {
    let mut r = region("2A", get_test_bounding_box());
    r.add_neighbor("2B".to_string());
    r.add_neighbor("2B".to_string());
    assert_eq!(r.get_neighbors(), &vec!["2B".to_string()]);
    assert_eq!(r.get_code(), "2A");
    assert_eq!(r.get_name(), "Region 2A");
    assert!(r.get_extent().starts_with("POLYGON(("));
}

#[test]
fn containment_follows_the_predicate() {
    let r = region("2A", BoundingBox::new(1150000, 6030000, 1250000, 6110000));
    let inside = |r: &Region, b: &BoundingBox| {
        let e = extent_box(r);
        e.xmin <= b.xmin && b.xmax <= e.xmax && e.ymin <= b.ymin && b.ymax <= e.ymax
    };
    assert!(r.contains(&get_test_bounding_box(), &inside));
    assert!(!r.contains(&BoundingBox::new(1199000, 6104000, 1219000, 6120000), &inside));
}

#[test]
fn working_area_needs_a_region() {
    let g = corsica();
    let hits = find_intersecting_regions(&g, &BoundingBox::new(1199000, 6104000, 1219000, 6120000), box_hits);
    assert_eq!(working_region_codes(&hits).unwrap(), vec!["2A".to_string(), "2B".to_string()]);
    assert_eq!(working_region_codes(&vec![]), Err(GraphError::OutsideAllRegions));
}
