//! The coordinate enumerations of the engine: axes and directions. Each is a
//! closed string enumeration ([`StrEnum`]), so each can also serve as the
//! domain of an enum block property.
//!
//! The world uses a right-handed coordinate system: `x` grows east, `y` grows
//! up, `z` grows south.

use vstd::prelude::*;

use crate::errors::{ParseAxisError, ParseDirectionError, ParseHAxisError, ParseHDirectionError};
use crate::strenum::{
    lemma_strenum_of_model, lemma_strenum_round_trip, strenum_from_text, strenum_from_value,
    strenum_of_model, DynEnum, StrEnum, Value, ValueToEnumError,
};
use crate::value::{ValueModel, ValueUntyped};

verus! {

/// The three world axes: `z` (south-north), `x` (east-west), `y` (up-down),
/// in that declaration order, with `z` the default.
#[derive(Clone, Copy, Debug, PartialEq, Eq, Structural, Hash)]
pub enum Axis {
    /// The z axis, from north to south.
    Z,
    /// The x axis, from west to east.
    X,
    /// The y axis, from down to up.
    Y,
}

impl DynEnum for Axis {
    open spec fn spec_label(&self) -> Seq<char> {
        match self {
            Axis::Z => "z"@,
            Axis::X => "x"@,
            Axis::Y => "y"@,
        }
    }

    fn as_str(&self) -> (r: String) {
        String::from_str(
            match self {
                Axis::Z => "z",
                Axis::X => "x",
                Axis::Y => "y",
            },
        )
    }
}

impl StrEnum for Axis {
    open spec fn spec_variants() -> Seq<Axis> {
        seq![Axis::Z, Axis::X, Axis::Y]
    }

    proof fn lemma_variants() {
        reveal_strlit("z");
        reveal_strlit("x");
        reveal_strlit("y");
        assert("z"@[0] == 'z' && "x"@[0] == 'x' && "y"@[0] == 'y');
        assert forall|x: Axis| Self::spec_variants().contains(x) by {
            match x {
                Axis::Z => assert(Self::spec_variants()[0] == x),
                Axis::X => assert(Self::spec_variants()[1] == x),
                Axis::Y => assert(Self::spec_variants()[2] == x),
            }
        }
    }

    fn values() -> (r: Vec<Axis>) {
        let r = vec![Axis::Z, Axis::X, Axis::Y];
        proof {
            assert(r@ =~= Self::spec_variants());
        }
        r
    }
}

impl Value for Axis {
    type FromValError = ValueToEnumError;

    open spec fn model(self) -> ValueModel {
        ValueModel::Text(self.spec_label())
    }

    open spec fn of_model(m: ValueModel) -> Option<Axis> {
        strenum_of_model::<Axis>(m)
    }

    open spec fn parse_spec(s: Seq<char>) -> Option<Axis> {
        strenum_of_model::<Axis>(ValueModel::Text(s))
    }

    proof fn lemma_model_round_trip(x: Axis) {
        lemma_strenum_round_trip::<Axis>(x);
    }

    proof fn lemma_of_model(m: ValueModel) {
        lemma_strenum_of_model::<Axis>(m);
    }

    fn from_value(value: &ValueUntyped) -> (r: Result<Axis, ValueToEnumError>) {
        strenum_from_value::<Axis>(value)
    }

    fn into_value(self) -> (r: ValueUntyped) {
        ValueUntyped::Text(self.as_str())
    }

    fn from_text(s: &str) -> (r: Option<Axis>) {
        strenum_from_text::<Axis>(s)
    }

    fn eq_value(&self, other: &Self) -> (r: bool) {
        *self == *other
    }

    fn kind_name() -> &'static str {
        "enum"
    }
}

impl Default for Axis {
    /// The default axis is `z`.
    fn default() -> (r: Self)
        ensures
            r == Axis::Z,
    {
        Axis::Z
    }
}

impl Axis {
    /// Parses an axis from its label.
    pub fn from_str(s: &str) -> (r: Result<Axis, ParseAxisError>)
        ensures
            r matches Ok(x) ==> Axis::parse_spec(s@) == Some(x),
            r is Err ==> Axis::parse_spec(s@) is None,
    {
        match strenum_from_text::<Axis>(s) {
            Some(x) => Ok(x),
            None => Err(ParseAxisError),
        }
    }
}

/// The two horizontal axes: `z` (south-north) and `x` (east-west), with `z`
/// the default.
#[derive(Clone, Copy, Debug, PartialEq, Eq, Structural, Hash)]
pub enum HAxis {
    /// The z axis, from north to south.
    Z,
    /// The x axis, from west to east.
    X,
}

impl DynEnum for HAxis {
    open spec fn spec_label(&self) -> Seq<char> {
        match self {
            HAxis::Z => "z"@,
            HAxis::X => "x"@,
        }
    }

    fn as_str(&self) -> (r: String) {
        String::from_str(
            match self {
                HAxis::Z => "z",
                HAxis::X => "x",
            },
        )
    }
}

impl StrEnum for HAxis {
    open spec fn spec_variants() -> Seq<HAxis> {
        seq![HAxis::Z, HAxis::X]
    }

    proof fn lemma_variants() {
        reveal_strlit("z");
        reveal_strlit("x");
        assert("z"@[0] == 'z' && "x"@[0] == 'x');
        assert forall|x: HAxis| Self::spec_variants().contains(x) by {
            match x {
                HAxis::Z => assert(Self::spec_variants()[0] == x),
                HAxis::X => assert(Self::spec_variants()[1] == x),
            }
        }
    }

    fn values() -> (r: Vec<HAxis>) {
        let r = vec![HAxis::Z, HAxis::X];
        proof {
            assert(r@ =~= Self::spec_variants());
        }
        r
    }
}

impl Value for HAxis {
    type FromValError = ValueToEnumError;

    open spec fn model(self) -> ValueModel {
        ValueModel::Text(self.spec_label())
    }

    open spec fn of_model(m: ValueModel) -> Option<HAxis> {
        strenum_of_model::<HAxis>(m)
    }

    open spec fn parse_spec(s: Seq<char>) -> Option<HAxis> {
        strenum_of_model::<HAxis>(ValueModel::Text(s))
    }

    proof fn lemma_model_round_trip(x: HAxis) {
        lemma_strenum_round_trip::<HAxis>(x);
    }

    proof fn lemma_of_model(m: ValueModel) {
        lemma_strenum_of_model::<HAxis>(m);
    }

    fn from_value(value: &ValueUntyped) -> (r: Result<HAxis, ValueToEnumError>) {
        strenum_from_value::<HAxis>(value)
    }

    fn into_value(self) -> (r: ValueUntyped) {
        ValueUntyped::Text(self.as_str())
    }

    fn from_text(s: &str) -> (r: Option<HAxis>) {
        strenum_from_text::<HAxis>(s)
    }

    fn eq_value(&self, other: &Self) -> (r: bool) {
        *self == *other
    }

    fn kind_name() -> &'static str {
        "enum"
    }
}

impl Default for HAxis {
    /// The default horizontal axis is `z`.
    fn default() -> (r: Self)
        ensures
            r == HAxis::Z,
    {
        HAxis::Z
    }
}

impl HAxis {
    /// Parses a horizontal axis from its label.
    pub fn from_str(s: &str) -> (r: Result<HAxis, ParseHAxisError>)
        ensures
            r matches Ok(x) ==> HAxis::parse_spec(s@) == Some(x),
            r is Err ==> HAxis::parse_spec(s@) is None,
    {
        match strenum_from_text::<HAxis>(s) {
            Some(x) => Ok(x),
            None => Err(ParseHAxisError),
        }
    }
}

/// The six directions parallel to the world axes, with `south` the default.
#[derive(Clone, Copy, Debug, PartialEq, Eq, Structural, Hash)]
pub enum Direction {
    /// South, along the positive z axis.
    South,
    /// North, along the negative z axis.
    North,
    /// East, along the positive x axis.
    East,
    /// West, along the negative x axis.
    West,
    /// Up, along the positive y axis.
    Up,
    /// Down, along the negative y axis.
    Down,
}

impl Direction {
    /// The direction opposite to this one.
    pub open spec fn spec_opposite(self) -> Direction {
        match self {
            Direction::South => Direction::North,
            Direction::North => Direction::South,
            Direction::East => Direction::West,
            Direction::West => Direction::East,
            Direction::Up => Direction::Down,
            Direction::Down => Direction::Up,
        }
    }

    /// The axis this direction runs along.
    pub open spec fn spec_axis(self) -> Axis {
        match self {
            Direction::South => Axis::Z,
            Direction::North => Axis::Z,
            Direction::East => Axis::X,
            Direction::West => Axis::X,
            Direction::Up => Axis::Y,
            Direction::Down => Axis::Y,
        }
    }

    /// Returns the direction opposite to this one.
    pub fn opposite(&self) -> (r: Direction)
        ensures
            r == self.spec_opposite(),
    {
        match self {
            Direction::South => Direction::North,
            Direction::North => Direction::South,
            Direction::East => Direction::West,
            Direction::West => Direction::East,
            Direction::Up => Direction::Down,
            Direction::Down => Direction::Up,
        }
    }

    /// Returns the axis this direction runs along.
    pub fn axis(&self) -> (r: Axis)
        ensures
            r == self.spec_axis(),
    {
        match self {
            Direction::South => Axis::Z,
            Direction::North => Axis::Z,
            Direction::East => Axis::X,
            Direction::West => Axis::X,
            Direction::Up => Axis::Y,
            Direction::Down => Axis::Y,
        }
    }

    /// Parses a direction from its label.
    pub fn from_str(s: &str) -> (r: Result<Direction, ParseDirectionError>)
        ensures
            r matches Ok(x) ==> Direction::parse_spec(s@) == Some(x),
            r is Err ==> Direction::parse_spec(s@) is None,
    {
        match strenum_from_text::<Direction>(s) {
            Some(x) => Ok(x),
            None => Err(ParseDirectionError),
        }
    }
}

impl DynEnum for Direction {
    open spec fn spec_label(&self) -> Seq<char> {
        match self {
            Direction::South => "south"@,
            Direction::North => "north"@,
            Direction::East => "east"@,
            Direction::West => "west"@,
            Direction::Up => "up"@,
            Direction::Down => "down"@,
        }
    }

    fn as_str(&self) -> (r: String) {
        String::from_str(
            match self {
                Direction::South => "south",
                Direction::North => "north",
                Direction::East => "east",
                Direction::West => "west",
                Direction::Up => "up",
                Direction::Down => "down",
            },
        )
    }
}

impl StrEnum for Direction {
    open spec fn spec_variants() -> Seq<Direction> {
        seq![
            Direction::South,
            Direction::North,
            Direction::East,
            Direction::West,
            Direction::Up,
            Direction::Down,
        ]
    }

    proof fn lemma_variants() {
        reveal_strlit("south");
        reveal_strlit("north");
        reveal_strlit("east");
        reveal_strlit("west");
        reveal_strlit("up");
        reveal_strlit("down");
        assert("south"@[0] == 's' && "north"@[0] == 'n' && "east"@[0] == 'e' && "west"@[0] == 'w'
            && "up"@[0] == 'u' && "down"@[0] == 'd');
        assert forall|x: Direction| Self::spec_variants().contains(x) by {
            match x {
                Direction::South => assert(Self::spec_variants()[0] == x),
                Direction::North => assert(Self::spec_variants()[1] == x),
                Direction::East => assert(Self::spec_variants()[2] == x),
                Direction::West => assert(Self::spec_variants()[3] == x),
                Direction::Up => assert(Self::spec_variants()[4] == x),
                Direction::Down => assert(Self::spec_variants()[5] == x),
            }
        }
    }

    fn values() -> (r: Vec<Direction>) {
        let r = vec![
            Direction::South,
            Direction::North,
            Direction::East,
            Direction::West,
            Direction::Up,
            Direction::Down,
        ];
        proof {
            assert(r@ =~= Self::spec_variants());
        }
        r
    }
}

impl Value for Direction {
    type FromValError = ValueToEnumError;

    open spec fn model(self) -> ValueModel {
        ValueModel::Text(self.spec_label())
    }

    open spec fn of_model(m: ValueModel) -> Option<Direction> {
        strenum_of_model::<Direction>(m)
    }

    open spec fn parse_spec(s: Seq<char>) -> Option<Direction> {
        strenum_of_model::<Direction>(ValueModel::Text(s))
    }

    proof fn lemma_model_round_trip(x: Direction) {
        lemma_strenum_round_trip::<Direction>(x);
    }

    proof fn lemma_of_model(m: ValueModel) {
        lemma_strenum_of_model::<Direction>(m);
    }

    fn from_value(value: &ValueUntyped) -> (r: Result<Direction, ValueToEnumError>) {
        strenum_from_value::<Direction>(value)
    }

    fn into_value(self) -> (r: ValueUntyped) {
        ValueUntyped::Text(self.as_str())
    }

    fn from_text(s: &str) -> (r: Option<Direction>) {
        strenum_from_text::<Direction>(s)
    }

    fn eq_value(&self, other: &Self) -> (r: bool) {
        *self == *other
    }

    fn kind_name() -> &'static str {
        "enum"
    }
}

impl Default for Direction {
    /// The default direction is `south`.
    fn default() -> (r: Self)
        ensures
            r == Direction::South,
    {
        Direction::South
    }
}

/// The eight horizontal directions: the four cardinal ones and the four
/// diagonals, with `south` the default.
#[derive(Clone, Copy, Debug, PartialEq, Eq, Structural, Hash)]
pub enum HDirection {
    /// South, along the positive z axis.
    South,
    /// North, along the negative z axis.
    North,
    /// East, along the positive x axis.
    East,
    /// West, along the negative x axis.
    West,
    /// Southeast, between south and east.
    Southeast,
    /// Southwest, between south and west.
    Southwest,
    /// Northeast, between north and east.
    Northeast,
    /// Northwest, between north and west.
    Northwest,
}

impl HDirection {
    /// Parses a horizontal direction from its label.
    pub fn from_str(s: &str) -> (r: Result<HDirection, ParseHDirectionError>)
        ensures
            r matches Ok(x) ==> HDirection::parse_spec(s@) == Some(x),
            r is Err ==> HDirection::parse_spec(s@) is None,
    {
        match strenum_from_text::<HDirection>(s) {
            Some(x) => Ok(x),
            None => Err(ParseHDirectionError),
        }
    }
}

impl DynEnum for HDirection {
    open spec fn spec_label(&self) -> Seq<char> {
        match self {
            HDirection::South => "south"@,
            HDirection::North => "north"@,
            HDirection::East => "east"@,
            HDirection::West => "west"@,
            HDirection::Southeast => "southeast"@,
            HDirection::Southwest => "southwest"@,
            HDirection::Northeast => "northeast"@,
            HDirection::Northwest => "northwest"@,
        }
    }

    fn as_str(&self) -> (r: String) {
        String::from_str(
            match self {
                HDirection::South => "south",
                HDirection::North => "north",
                HDirection::East => "east",
                HDirection::West => "west",
                HDirection::Southeast => "southeast",
                HDirection::Southwest => "southwest",
                HDirection::Northeast => "northeast",
                HDirection::Northwest => "northwest",
            },
        )
    }
}

impl StrEnum for HDirection {
    open spec fn spec_variants() -> Seq<HDirection> {
        seq![
            HDirection::South,
            HDirection::North,
            HDirection::East,
            HDirection::West,
            HDirection::Southeast,
            HDirection::Southwest,
            HDirection::Northeast,
            HDirection::Northwest,
        ]
    }

    proof fn lemma_variants() {
        reveal_strlit("south");
        reveal_strlit("north");
        reveal_strlit("east");
        reveal_strlit("west");
        reveal_strlit("southeast");
        reveal_strlit("southwest");
        reveal_strlit("northeast");
        reveal_strlit("northwest");
        assert("south"@[0] == 's' && "north"@[0] == 'n' && "east"@[0] == 'e' && "west"@[0] == 'w');
        assert("south"@.len() == 5 && "north"@.len() == 5 && "southeast"@.len() == 9
            && "southwest"@.len() == 9 && "northeast"@.len() == 9 && "northwest"@.len() == 9);
        assert("southeast"@[0] == 's' && "southwest"@[0] == 's' && "northeast"@[0] == 'n'
            && "northwest"@[0] == 'n');
        assert("southeast"@[5] == 'e' && "southwest"@[5] == 'w' && "northeast"@[5] == 'e'
            && "northwest"@[5] == 'w');
        assert forall|x: HDirection| Self::spec_variants().contains(x) by {
            match x {
                HDirection::South => assert(Self::spec_variants()[0] == x),
                HDirection::North => assert(Self::spec_variants()[1] == x),
                HDirection::East => assert(Self::spec_variants()[2] == x),
                HDirection::West => assert(Self::spec_variants()[3] == x),
                HDirection::Southeast => assert(Self::spec_variants()[4] == x),
                HDirection::Southwest => assert(Self::spec_variants()[5] == x),
                HDirection::Northeast => assert(Self::spec_variants()[6] == x),
                HDirection::Northwest => assert(Self::spec_variants()[7] == x),
            }
        }
    }

    fn values() -> (r: Vec<HDirection>) {
        let r = vec![
            HDirection::South,
            HDirection::North,
            HDirection::East,
            HDirection::West,
            HDirection::Southeast,
            HDirection::Southwest,
            HDirection::Northeast,
            HDirection::Northwest,
        ];
        proof {
            assert(r@ =~= Self::spec_variants());
        }
        r
    }
}

impl Value for HDirection {
    type FromValError = ValueToEnumError;

    open spec fn model(self) -> ValueModel {
        ValueModel::Text(self.spec_label())
    }

    open spec fn of_model(m: ValueModel) -> Option<HDirection> {
        strenum_of_model::<HDirection>(m)
    }

    open spec fn parse_spec(s: Seq<char>) -> Option<HDirection> {
        strenum_of_model::<HDirection>(ValueModel::Text(s))
    }

    proof fn lemma_model_round_trip(x: HDirection) {
        lemma_strenum_round_trip::<HDirection>(x);
    }

    proof fn lemma_of_model(m: ValueModel) {
        lemma_strenum_of_model::<HDirection>(m);
    }

    fn from_value(value: &ValueUntyped) -> (r: Result<HDirection, ValueToEnumError>) {
        strenum_from_value::<HDirection>(value)
    }

    fn into_value(self) -> (r: ValueUntyped) {
        ValueUntyped::Text(self.as_str())
    }

    fn from_text(s: &str) -> (r: Option<HDirection>) {
        strenum_from_text::<HDirection>(s)
    }

    fn eq_value(&self, other: &Self) -> (r: bool) {
        *self == *other
    }

    fn kind_name() -> &'static str {
        "enum"
    }
}

impl Default for HDirection {
    /// The default horizontal direction is `south`.
    fn default() -> (r: Self)
        ensures
            r == HDirection::South,
    {
        HDirection::South
    }
}

} // verus!
