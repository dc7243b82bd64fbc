use vstd::prelude::*;

verus! {

/// One of the two fixed participant positions of a game.
#[derive(Clone, Copy, Debug, PartialEq, Eq, Structural)]
pub enum Slot {
    Left,
    Right,
}

impl Slot {
    /// The slot facing this one.
    pub open spec fn spec_other(self) -> Slot {
        match self {
            Slot::Left => Slot::Right,
            Slot::Right => Slot::Left,
        }
    }

    pub fn other(self) -> (r: Slot)
        ensures
            r == self.spec_other(),
    {
        match self {
            Slot::Left => Slot::Right,
            Slot::Right => Slot::Left,
        }
    }

    /// The slot that a wire name denotes: `p1` is the left one, `p2` the right one.
    pub open spec fn spec_from_id(id: Seq<char>) -> Option<Slot> {
        if id == "p1"@ {
            Some(Slot::Left)
        } else if id == "p2"@ {
            Some(Slot::Right)
        } else {
            None
        }
    }

    pub fn from_id(id: &str) -> (r: Option<Slot>)
        ensures
            r == Slot::spec_from_id(id@),
    {
        let key = id.to_owned();
        if key == "p1".to_owned() {
            Some(Slot::Left)
        } else if key == "p2".to_owned() {
            Some(Slot::Right)
        } else {
            None
        }
    }

    /// The wire name of this slot.
    pub fn id(self) -> (r: &'static str)
        ensures
            Slot::spec_from_id(r@) == Some(self),
    {
        proof {
            reveal_strlit("p1");
            reveal_strlit("p2");
            assert("p1"@[1] != "p2"@[1]);
        }
        match self {
            Slot::Left => "p1",
            Slot::Right => "p2",
        }
    }
}

} // verus!
