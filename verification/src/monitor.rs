//! The monitor record and the enumeration filter.

use vstd::prelude::*;

verus! {

/// A connected display, as the platform layer reported it: identifier,
/// resolved name, position and size of its bounds, and whether it is the
/// main display. Constructed once per query and immutable thereafter.
#[derive(Debug, Clone, PartialEq, Eq)]
pub struct Monitor {
    pub id: u32,
    pub name: String,
    pub x: i32,
    pub y: i32,
    pub width: u32,
    pub height: u32,
    pub is_primary: bool,
}

impl Monitor {
    /// Populate the record from the values the platform layer resolved.
    pub fn new(
        id: u32,
        name: String,
        x: i32,
        y: i32,
        width: u32,
        height: u32,
        is_primary: bool,
    ) -> (m: Monitor)
        ensures
            m.id == id,
            m.name == name,
            m.x == x,
            m.y == y,
            m.width == width,
            m.height == height,
            m.is_primary == is_primary,
    {
        Monitor { id, name, x, y, width, height, is_primary }
    }
}

/// The monitors that could be constructed, in the order the display list
/// gave them; a display whose construction failed contributes nothing.
pub open spec fn present_monitors<T>(s: Seq<Option<T>>) -> Seq<T>
    decreases s.len(),
{
    if s.len() == 0 {
        Seq::empty()
    } else {
        match s.last() {
            Some(m) => present_monitors(s.drop_last()).push(m),
            None => present_monitors(s.drop_last()),
        }
    }
}

/// Keep the monitors that were constructed, in order. Enumerating displays
/// constructs one monitor per display identifier, and a construction can
/// fail when a display is unplugged mid-query; such a display is skipped.
pub fn collect_available<T>(monitors: Vec<Option<T>>) -> (r: Vec<T>)
    ensures
        r@ == present_monitors(monitors@),
{
    let ghost all = monitors@;
    let mut rest = monitors;
    let mut r: Vec<T> = Vec::new();
    let ghost mut taken: int = 0;
    while rest.len() > 0
        invariant
            0 <= taken <= all.len(),
            rest@ == all.skip(taken),
            r@ == present_monitors(all.take(taken)),
        decreases rest@.len(),
    {
        let next = rest.remove(0);
        proof {
            assert(all.take(taken + 1).drop_last() =~= all.take(taken));
            assert(all.take(taken + 1).last() == all[taken]);
            assert(rest@ =~= all.skip(taken + 1));
        }
        match next {
            Some(m) => {
                r.push(m);
            },
            None => {},
        }
        proof {
            taken = taken + 1;
        }
    }
    proof {
        assert(all.take(taken) =~= all);
    }
    r
}

} // verus!
