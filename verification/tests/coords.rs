use libcrium::coords::{Axis, Direction, HAxis, HDirection};
use libcrium::positions::{BlockOffset, BlockPosition, ChunkPosition};
use libcrium::strenum::{DynEnum, StrEnum};

const AXES: [Axis; 3] = [Axis::X, Axis::Y, Axis::Z];

const DIRECTIONS: [Direction; 6] = [
    Direction::South,
    Direction::North,
    Direction::East,
    Direction::West,
    Direction::Up,
    Direction::Down,
];

#[test]
fn test_direction_labels() {
    for dir in DIRECTIONS {
        assert_eq!(dir, Direction::from_str(&dir.as_str()).unwrap());
    }
    assert_eq!(Direction::from_str("south"), Ok(Direction::South));
    assert_eq!(Direction::from_str("up"), Ok(Direction::Up));
    assert!(Direction::from_str("sideways").is_err());
    assert_eq!(
        Direction::values(),
        vec![
            Direction::South,
            Direction::North,
            Direction::East,
            Direction::West,
            Direction::Up,
            Direction::Down,
        ]
    );
}

#[test]
fn test_axis_labels() {
    for axis in AXES {
        assert_eq!(axis, Axis::from_str(&axis.as_str()).unwrap());
    }
    assert_eq!(Axis::from_str("x"), Ok(Axis::X));
    assert!(Axis::from_str("w").is_err());
    assert_eq!(Axis::values(), vec![Axis::Z, Axis::X, Axis::Y]);
    assert_eq!(HAxis::values(), vec![HAxis::Z, HAxis::X]);
    assert_eq!(HDirection::from_str("southeast"), Ok(HDirection::Southeast));
    assert!(HDirection::from_str("up").is_err());
}

#[test]
fn test_direction_geometry() {
    assert_eq!(Direction::South.opposite(), Direction::North);
    assert_eq!(Direction::North.opposite(), Direction::South);
    assert_eq!(Direction::East.opposite(), Direction::West);
    assert_eq!(Direction::West.opposite(), Direction::East);
    assert_eq!(Direction::Up.opposite(), Direction::Down);
    assert_eq!(Direction::Down.opposite(), Direction::Up);

    assert_eq!(Direction::South.axis(), Axis::Z);
    assert_eq!(Direction::East.axis(), Axis::X);
    assert_eq!(Direction::Up.axis(), Axis::Y);

    for dir in DIRECTIONS {
        assert_eq!(dir.opposite().opposite(), dir);
        assert_eq!(dir.opposite().axis(), dir.axis());
    }
}

#[test]
fn test_chunk_position() {
    let c = ChunkPosition::new(3, -2);
    assert_eq!(c.south(2), ChunkPosition::new(3, 0));
    assert_eq!(c.north(2), ChunkPosition::new(3, -4));
    assert_eq!(c.east(1), ChunkPosition::new(4, -2));
    assert_eq!(c.west(1), ChunkPosition::new(2, -2));

    let a = ChunkPosition::new(0, 0);
    let b = ChunkPosition::new(3, 4);
    assert_eq!(a.euclidean2(&b), 25);
    assert_eq!(b.euclidean2(&a), 25);
    assert_eq!(a.manhattan(&b), 7);
    assert_eq!(b.manhattan(&a), 7);
}

#[test]
fn test_block_position() {
    let p = BlockPosition::new(1, 2, 3);
    assert_eq!(p.south(4), BlockPosition::new(1, 2, 7));
    assert_eq!(p.north(4), BlockPosition::new(1, 2, -1));
    assert_eq!(p.east(4), BlockPosition::new(5, 2, 3));
    assert_eq!(p.west(4), BlockPosition::new(-3, 2, 3));
    assert_eq!(p.up(4), BlockPosition::new(1, 6, 3));
    assert_eq!(p.down(4), BlockPosition::new(1, -2, 3));

    let a = BlockPosition::new(0, 0, 0);
    let b = BlockPosition::new(1, 2, -2);
    assert_eq!(a.euclidean2(&b), 9);
    assert_eq!(b.euclidean2(&a), 9);
    assert_eq!(a.manhattan(&b), 5);
    assert_eq!(b.manhattan(&a), 5);
}

#[test]
fn test_block_position_parts() {
    // positive coordinates split in the obvious way.
    let p = BlockPosition::new(35, 7, 16);
    let (chunk, offset) = p.into_parts();
    assert_eq!(chunk, ChunkPosition::new(2, 1));
    assert_eq!(offset, BlockOffset::new(3, 7, 0));
    assert_eq!(BlockPosition::from_parts(chunk, offset), p);
    assert_eq!(p.chunk(), ChunkPosition::new(2, 1));

    // negative coordinates round the chunk down, keeping the offset in
    // range.
    let p = BlockPosition::new(-1, 0, -17);
    let (chunk, offset) = p.into_parts();
    assert_eq!(chunk, ChunkPosition::new(-1, -2));
    assert_eq!(offset, BlockOffset::new(15, 0, 15));
    assert_eq!(BlockPosition::from_parts(chunk, offset), p);
    assert_eq!(p.chunk(), ChunkPosition::new(-1, -2));
}
