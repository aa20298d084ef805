//! The direction type, its rotation and its geometry.
use vstd::prelude::*;

verus! {

/// One of the four cardinal directions on a grid whose north points up.
///
/// Directions compare in declaration order: East < North < West < South.
#[derive(Debug, PartialEq, Eq, Structural, Clone, Copy, PartialOrd, Ord)]
pub enum Cardinal {
    /// East, or (1, 0)
    East,
    /// North, or (0, 1)
    North,
    /// West, or (-1, 0)
    West,
    /// South, or (0, -1)
    South,
}

/// The cosine of an angle of whole quarter turns, given in degrees.
pub open spec fn quarter_cos(deg: int) -> int {
    let q = (deg / 90) % 4;
    if q == 0 {
        1
    } else if q == 2 {
        -1
    } else {
        0
    }
}

/// The sine of an angle of whole quarter turns, given in degrees.
pub open spec fn quarter_sin(deg: int) -> int {
    let q = (deg / 90) % 4;
    if q == 1 {
        1
    } else if q == 3 {
        -1
    } else {
        0
    }
}

/// The four directions in declaration order.
pub open spec fn all_cardinals() -> Seq<Cardinal> {
    seq![Cardinal::East, Cardinal::North, Cardinal::West, Cardinal::South]
}

impl Cardinal {
    /// Counterclockwise quarter turns from East; also the position in declaration order.
    pub open spec fn quarter(self) -> int {
        match self {
            Cardinal::East => 0,
            Cardinal::North => 1,
            Cardinal::West => 2,
            Cardinal::South => 3,
        }
    }

    /// The direction `q` counterclockwise quarter turns from East, for any integer `q`.
    pub open spec fn from_quarter(q: int) -> Cardinal {
        let m = q % 4;
        if m == 0 {
            Cardinal::East
        } else if m == 1 {
            Cardinal::North
        } else if m == 2 {
            Cardinal::West
        } else {
            Cardinal::South
        }
    }

    /// This direction turned by `amount` quarter turns, counterclockwise when positive.
    pub open spec fn rotated(self, amount: int) -> Cardinal {
        Cardinal::from_quarter(self.quarter() + amount)
    }

    /// The unit step on the grid, north being up.
    pub open spec fn vector(self) -> (int, int) {
        match self {
            Cardinal::East => (1, 0),
            Cardinal::North => (0, 1),
            Cardinal::West => (-1, 0),
            Cardinal::South => (0, -1),
        }
    }

    /// The angle in degrees, East at 0 and growing counterclockwise.
    pub open spec fn degrees(self) -> int {
        90 * self.quarter()
    }

    pub open spec fn horizontal(self) -> bool {
        self is East || self is West
    }

    pub open spec fn vertical(self) -> bool {
        self is North || self is South
    }

    /// The lowercase English word for the direction.
    pub open spec fn word(self) -> Seq<char> {
        match self {
            Cardinal::East => "east"@,
            Cardinal::North => "north"@,
            Cardinal::West => "west"@,
            Cardinal::South => "south"@,
        }
    }

    /// Rotates by `amount` quarter turns: counterclockwise (East to North) when
    /// positive, clockwise when negative. Every amount is valid.
    #[must_use]
    pub fn rotate(self, amount: i32) -> (r: Cardinal)
        ensures
            r == self.rotated(amount as int),
    {
        let v: i32 = match self {
            Cardinal::East => 0,
            Cardinal::North => 1,
            Cardinal::West => 2,
            Cardinal::South => 3,
        };
        // `amount` is reduced first, so that no sum can overflow.
        let turns: i32 = match amount.checked_rem_euclid(4) {
            Some(t) => t,
            // Never taken: the divisor is 4.
            None => 0,
        };
        proof {
            vstd::arithmetic::div_mod::lemma_add_mod_noop(v as int, amount as int, 4);
            vstd::arithmetic::div_mod::lemma_mod_twice(amount as int, 4);
        }
        match (v + turns) % 4 {
            0 => Cardinal::East,
            1 => Cardinal::North,
            2 => Cardinal::West,
            _ => Cardinal::South,
        }
    }

    /// The four directions, each once, in the order East, North, West, South.
    pub fn iter_values() -> (r: [Cardinal; 4])
        ensures
            r@ == all_cardinals(),
    {
        let r = [Cardinal::East, Cardinal::North, Cardinal::West, Cardinal::South];
        assert(r@ =~= all_cardinals());
        r
    }

    /// The unit step as integer coordinates, north being up.
    pub fn to_ivec2(self) -> (r: (i32, i32))
        ensures
            (r.0 as int, r.1 as int) == self.vector(),
    {
        match self {
            Cardinal::East => (1, 0),
            Cardinal::North => (0, 1),
            Cardinal::West => (-1, 0),
            Cardinal::South => (0, -1),
        }
    }

    /// The angle in whole degrees: East 0, North 90, West 180, South 270.
    pub fn angle_degrees(self) -> (r: u16)
        ensures
            r as int == self.degrees(),
    {
        match self {
            Cardinal::East => 0,
            Cardinal::North => 90,
            Cardinal::West => 180,
            Cardinal::South => 270,
        }
    }

    /// Is either West or East.
    pub fn is_horizontal(self) -> (r: bool)
        ensures
            r == self.horizontal(),
    {
        matches!(self, Cardinal::East | Cardinal::West)
    }

    /// Is either North or South.
    pub fn is_vertical(self) -> (r: bool)
        ensures
            r == self.vertical(),
    {
        matches!(self, Cardinal::North | Cardinal::South)
    }

    /// The lowercase English word: "east", "north", "west" or "south".
    pub fn to_string(&self) -> (r: String)
        ensures
            r@ == self.word(),
    {
        let word: &str = match self {
            Cardinal::East => "east",
            Cardinal::North => "north",
            Cardinal::West => "west",
            Cardinal::South => "south",
        };
        word.to_owned()
    }
}

/// Reading a direction back from its quarter count reduces the count modulo 4.
proof fn lemma_quarter_of_from_quarter(q: int)
    ensures
        Cardinal::from_quarter(q).quarter() == q % 4,
{
}

/// Turning by `a` and then by `b` is turning by `a + b`.
pub proof fn lemma_rotate_compose(c: Cardinal, a: int, b: int)
    ensures
        c.rotated(a).rotated(b) == c.rotated(a + b),
{
    lemma_quarter_of_from_quarter(c.quarter() + a);
    vstd::arithmetic::div_mod::lemma_add_mod_noop(c.quarter() + a, b, 4);
    vstd::arithmetic::div_mod::lemma_mod_twice(c.quarter() + a, 4);
    vstd::arithmetic::div_mod::lemma_mod_twice(c.quarter() + a + b, 4);
}

/// Turning by `n` and then by `-n` gives back the direction, for every integer `n`.
pub proof fn lemma_rotate_round_trip(c: Cardinal, n: int)
    ensures
        c.rotated(n).rotated(-n) == c,
{
    lemma_rotate_compose(c, n, -n);
}

/// A full turn of four quarters changes nothing, whether made at once or one quarter at a time.
pub proof fn lemma_rotate_full_turn(c: Cardinal)
    ensures
        c.rotated(4) == c,
        c.rotated(1).rotated(1).rotated(1).rotated(1) == c,
{
    lemma_rotate_compose(c, 1, 1);
    lemma_rotate_compose(c, 2, 1);
    lemma_rotate_compose(c, 3, 1);
}

/// The listing of all directions holds four, each exactly once.
pub proof fn lemma_all_cardinals_each_once()
    ensures
        all_cardinals().len() == 4,
        all_cardinals().no_duplicates(),
        forall|c: Cardinal| #[trigger] all_cardinals().contains(c),
        forall|i: int| 0 <= i < 4 ==> (#[trigger] all_cardinals()[i]).quarter() == i,
{
    assert forall|c: Cardinal| #[trigger] all_cardinals().contains(c) by {
        assert(all_cardinals()[c.quarter()] == c);
    }
}

/// A direction's vector is the cosine and sine of its angle, the angle is a whole
/// number of quarter turns below a full turn, and a quarter turn counterclockwise
/// adds 90 degrees and turns the vector from (x, y) to (-y, x).
pub proof fn lemma_vector_matches_angle(c: Cardinal)
    ensures
        0 <= c.degrees() < 360,
        c.degrees() % 90 == 0,
        c.vector() == (quarter_cos(c.degrees()), quarter_sin(c.degrees())),
        c.rotated(1).degrees() == (c.degrees() + 90) % 360,
        c.rotated(1).vector() == (-c.vector().1, c.vector().0),
{
}

/// Every direction is either horizontal or vertical, and never both.
pub proof fn lemma_horizontal_xor_vertical(c: Cardinal)
    ensures
        c.horizontal() != c.vertical(),
        c.horizontal() <==> (c == Cardinal::East || c == Cardinal::West),
{
}

} // verus!
