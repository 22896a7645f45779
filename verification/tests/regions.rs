//! Spacetime regions: bounds and membership.

use sys_validation::region::RegionCoords;
use sys_validation::region::SpaceCoord;
use sys_validation::region::SpaceSegment;
use sys_validation::region::SpacetimeCoords;
use sys_validation::region::TimeCoord;
use sys_validation::region::TimeSegment;

fn region() -> RegionCoords {
    RegionCoords::new(
        SpaceSegment { start: 10, length: 4 },
        TimeSegment { start: 100, length: 50 },
    )
}

#[test]
fn bounds_are_inclusive_on_both_axes() {
    let b = region().to_bounds();
    assert_eq!(b.x.0, SpaceCoord(10));
    assert_eq!(b.x.1, SpaceCoord(13));
    assert_eq!(b.t.0, TimeCoord(100));
    assert_eq!(b.t.1, TimeCoord(149));
}

#[test]
fn bounds_reach_the_end_of_the_space() {
    let full = RegionCoords::new(
        SpaceSegment { start: 0, length: u32::MAX },
        TimeSegment { start: u32::MAX, length: 1 },
    );
    let b = full.to_bounds();
    assert_eq!(b.x.0, SpaceCoord(0));
    assert_eq!(b.x.1, SpaceCoord(u32::MAX - 1));
    assert_eq!(b.t.0, TimeCoord(u32::MAX));
    assert_eq!(b.t.1, TimeCoord(u32::MAX));
}

#[test]
fn contains_needs_both_axes() {
    let r = region();
    let inside = SpacetimeCoords { space: SpaceCoord(12), time: TimeCoord(120) };
    assert!(r.contains(&inside));

    let space_out = SpacetimeCoords { space: SpaceCoord(14), time: TimeCoord(120) };
    assert!(!r.contains(&space_out));

    let time_out = SpacetimeCoords { space: SpaceCoord(12), time: TimeCoord(150) };
    assert!(!r.contains(&time_out));
}

#[test]
fn contains_edges_are_inclusive() {
    let r = region();
    let first = SpacetimeCoords { space: SpaceCoord(10), time: TimeCoord(100) };
    assert!(r.contains(&first));
    let last = SpacetimeCoords { space: SpaceCoord(13), time: TimeCoord(149) };
    assert!(r.contains(&last));
    let just_before = SpacetimeCoords { space: SpaceCoord(9), time: TimeCoord(100) };
    assert!(!r.contains(&just_before));
}
