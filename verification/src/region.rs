//! Spacetime regions used by the gossip layer to name a rectangle of the
//! distributed-ledger keyspace over a window of time.
//!
//! A segment is a non-empty aligned window of coordinates; a region is the
//! product of one space segment and one time segment.

use vstd::prelude::*;

verus! {

/// A location in the keyspace.
#[derive(Clone, Copy, PartialEq, Eq, Structural, Debug)]
pub struct SpaceCoord(pub u32);

/// A quantized point in time.
#[derive(Clone, Copy, PartialEq, Eq, Structural, Debug)]
pub struct TimeCoord(pub u32);

/// A point of spacetime.
#[derive(Clone, Copy, PartialEq, Eq, Structural, Debug)]
pub struct SpacetimeCoords {
    pub space: SpaceCoord,
    pub time: TimeCoord,
}

/// A non-empty window of the keyspace: the coordinates
/// `start .. start + length`.
#[derive(Clone, Copy, PartialEq, Eq, Structural, Debug)]
pub struct SpaceSegment {
    pub start: u32,
    pub length: u32,
}

/// A non-empty window of time: the coordinates `start .. start + length`.
#[derive(Clone, Copy, PartialEq, Eq, Structural, Debug)]
pub struct TimeSegment {
    pub start: u32,
    pub length: u32,
}

impl SpaceSegment {
    /// A segment must be non-empty and must not run past the end of the
    /// coordinate space.
    pub open spec fn wf(self) -> bool {
        1 <= self.length && self.start + self.length <= u32::MAX + 1
    }

    /// The first and last coordinate inside the segment.
    pub fn bounds(&self) -> (b: (SpaceCoord, SpaceCoord))
        requires
            self.wf(),
        ensures
            b.0.0 == self.start,
            b.1.0 == self.start + self.length - 1,
    {
        (SpaceCoord(self.start), SpaceCoord(self.start + (self.length - 1)))
    }

    /// Is `coord` inside the segment?
    pub fn contains(&self, coord: SpaceCoord) -> (r: bool)
        requires
            self.wf(),
        ensures
            r == (self.start <= coord.0 < self.start + self.length),
    {
        self.start <= coord.0 && coord.0 - self.start < self.length
    }
}

impl TimeSegment {
    /// A segment must be non-empty and must not run past the end of the
    /// representable time window.
    pub open spec fn wf(self) -> bool {
        1 <= self.length && self.start + self.length <= u32::MAX + 1
    }

    /// The first and last coordinate inside the segment.
    pub fn bounds(&self) -> (b: (TimeCoord, TimeCoord))
        requires
            self.wf(),
        ensures
            b.0.0 == self.start,
            b.1.0 == self.start + self.length - 1,
    {
        (TimeCoord(self.start), TimeCoord(self.start + (self.length - 1)))
    }

    /// Is `coord` inside the segment?
    pub fn contains(&self, coord: TimeCoord) -> (r: bool)
        requires
            self.wf(),
        ensures
            r == (self.start <= coord.0 < self.start + self.length),
    {
        self.start <= coord.0 && coord.0 - self.start < self.length
    }
}

/// A rectangle of spacetime: one window of the keyspace over one window of
/// time.
#[derive(Clone, Copy, PartialEq, Eq, Structural, Debug)]
pub struct RegionCoords {
    pub space: SpaceSegment,
    pub time: TimeSegment,
}

/// A region written out as inclusive coordinate bounds on each axis.
#[derive(Clone, Copy, PartialEq, Eq, Debug)]
pub struct RegionBounds {
    pub x: (SpaceCoord, SpaceCoord),
    pub t: (TimeCoord, TimeCoord),
}

impl RegionCoords {
    /// Both segments of a region must be well-formed windows.
    pub open spec fn wf(self) -> bool {
        self.space.wf() && self.time.wf()
    }

    pub fn new(space: SpaceSegment, time: TimeSegment) -> (r: RegionCoords)
        ensures
            r.space == space,
            r.time == time,
    {
        RegionCoords { space, time }
    }

    /// Write the region out as inclusive bounds on each axis.
    pub fn to_bounds(&self) -> (b: RegionBounds)
        requires
            self.wf(),
        ensures
            b.x.0.0 == self.space.start,
            b.x.1.0 == self.space.start + self.space.length - 1,
            b.t.0.0 == self.time.start,
            b.t.1.0 == self.time.start + self.time.length - 1,
    {
        RegionBounds { x: self.space.bounds(), t: self.time.bounds() }
    }

    /// Is the point inside the region on both axes?
    pub fn contains(&self, coords: &SpacetimeCoords) -> (r: bool)
        requires
            self.wf(),
        ensures
            r == (self.space.start <= coords.space.0 < self.space.start + self.space.length
                && self.time.start <= coords.time.0 < self.time.start + self.time.length),
    {
        self.space.contains(coords.space) && self.time.contains(coords.time)
    }
}

} // verus!
