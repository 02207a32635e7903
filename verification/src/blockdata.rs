use vstd::prelude::*;

verus! {

// ---------------------------------------------------------------------------
// The decoded property variants. One packed 16-bit value carries a 4-bit
// type tag in its top bits and a 12-bit payload in its bottom bits; every
// out-of-range payload code falls back to a documented default instead of
// failing, so the format can grow without old files becoming unreadable.
// ---------------------------------------------------------------------------

#[derive(Clone, Debug, PartialEq)]
pub enum DanBlockData {
    Orientation(Axis),
    Age(u8),
    SnowLevel(u8),
    LiquidLevel(u8),
    Bisected(BisectionHalf),
    Direction(Direction),
    Waterlogged(bool),
    Rotation(Direction),
    MultipleFacing(Vec<Direction>),
    Open(bool),
    RailShape(RailShape),
    StairShape(StairShape),
    Attached(bool),
    Hinge(Side),
    Farmland(u8),
}

#[derive(Clone, Copy, Debug, PartialEq, Eq, Structural)]
pub enum Side {
    Left,
    Right,
}

#[derive(Clone, Copy, Debug, PartialEq, Eq, Structural)]
pub enum StairShape {
    InnerLeft,
    InnerRight,
    OuterLeft,
    OuterRight,
    Straight,
}

#[derive(Clone, Copy, Debug, PartialEq, Eq, Structural)]
pub enum BisectionHalf {
    Top,
    Bottom,
}

#[derive(Clone, Copy, Debug, PartialEq, Eq, Structural)]
pub enum Axis {
    X,
    Y,
    Z,
}

#[derive(Clone, Copy, Debug, PartialEq, Eq, Structural)]
pub enum Direction {
    Down,
    East,
    EastNorthEast,
    EastSouthEast,
    North,
    NorthEast,
    NorthNorthEast,
    NorthNorthWest,
    NorthWest,
    South,
    SouthEast,
    SouthSouthEast,
    SouthSouthWest,
    SouthWest,
    Up,
    West,
    WestNorthWest,
    WestSouthWest,
}

#[derive(Clone, Copy, Debug, PartialEq, Eq, Structural)]
pub enum RailShape {
    AscEast,
    AscNorth,
    AscSouth,
    AscWest,
    EastWest,
    NorthEast,
    NorthSouth,
    NorthWest,
    SouthEast,
    SouthWest,
}

// ---------------------------------------------------------------------------
// The mathematical model. `BlockDataView` is the ghost image of
// `DanBlockData`, with a sequence in place of the facing vector, and the
// spec functions below say exactly which variant each packed value decodes
// to. The exec decoders are proved to match them bit for bit.
// ---------------------------------------------------------------------------

#[verifier::ext_equal]
pub enum BlockDataView {
    Orientation(Axis),
    Age(u8),
    SnowLevel(u8),
    LiquidLevel(u8),
    Bisected(BisectionHalf),
    Direction(Direction),
    Waterlogged(bool),
    Rotation(Direction),
    MultipleFacing(Seq<Direction>),
    Open(bool),
    RailShape(RailShape),
    StairShape(StairShape),
    Attached(bool),
    Hinge(Side),
    Farmland(u8),
}

impl View for DanBlockData {
    type V = BlockDataView;

    open spec fn view(&self) -> BlockDataView {
        match self {
            DanBlockData::Orientation(a) => BlockDataView::Orientation(*a),
            DanBlockData::Age(v) => BlockDataView::Age(*v),
            DanBlockData::SnowLevel(v) => BlockDataView::SnowLevel(*v),
            DanBlockData::LiquidLevel(v) => BlockDataView::LiquidLevel(*v),
            DanBlockData::Bisected(h) => BlockDataView::Bisected(*h),
            DanBlockData::Direction(d) => BlockDataView::Direction(*d),
            DanBlockData::Waterlogged(v) => BlockDataView::Waterlogged(*v),
            DanBlockData::Rotation(d) => BlockDataView::Rotation(*d),
            DanBlockData::MultipleFacing(v) => BlockDataView::MultipleFacing(v@),
            DanBlockData::Open(v) => BlockDataView::Open(*v),
            DanBlockData::RailShape(s) => BlockDataView::RailShape(*s),
            DanBlockData::StairShape(s) => BlockDataView::StairShape(*s),
            DanBlockData::Attached(v) => BlockDataView::Attached(*v),
            DanBlockData::Hinge(s) => BlockDataView::Hinge(*s),
            DanBlockData::Farmland(v) => BlockDataView::Farmland(*v),
        }
    }
}

/// The view of an optional decoded property; `None` is the "no value"
/// outcome for an unrecognised type tag.
pub open spec fn block_data_opt_view(r: Option<DanBlockData>) -> Option<BlockDataView> {
    match r {
        Some(d) => Some(d@),
        None => None,
    }
}

/// Axis codes: 0 is X, 1 is Y, 3 is Z; the unassigned code 2 falls back to Y.
pub open spec fn spec_axis(bits: u16) -> Axis {
    if bits & 0b11 == 0b00 {
        Axis::X
    } else if bits & 0b11 == 0b01 {
        Axis::Y
    } else if bits & 0b11 == 0b11 {
        Axis::Z
    } else {
        Axis::Y
    }
}

/// Direction codes 0 through 17; any 5-bit code past 17 falls back to North.
pub open spec fn spec_direction(bits: u16) -> Direction {
    match bits & 0b11111 {
        0b00000 => Direction::Down,
        0b00001 => Direction::East,
        0b00010 => Direction::EastNorthEast,
        0b00011 => Direction::EastSouthEast,
        0b00100 => Direction::North,
        0b00101 => Direction::NorthEast,
        0b00110 => Direction::NorthNorthEast,
        0b00111 => Direction::NorthNorthWest,
        0b01000 => Direction::NorthWest,
        0b01001 => Direction::South,
        0b01010 => Direction::SouthEast,
        0b01011 => Direction::SouthSouthEast,
        0b01100 => Direction::SouthSouthWest,
        0b01101 => Direction::SouthWest,
        0b01110 => Direction::Up,
        0b01111 => Direction::West,
        0b10000 => Direction::WestNorthWest,
        0b10001 => Direction::WestSouthWest,
        _ => Direction::North,
    }
}

/// Rail shape codes 0 through 9; any other 4-bit code falls back to EastWest.
pub open spec fn spec_railshape(bits: u16) -> RailShape {
    match bits & 0b1111 {
        0b0000 => RailShape::AscEast,
        0b0001 => RailShape::AscNorth,
        0b0010 => RailShape::AscSouth,
        0b0011 => RailShape::AscWest,
        0b0100 => RailShape::EastWest,
        0b0101 => RailShape::NorthEast,
        0b0110 => RailShape::NorthSouth,
        0b0111 => RailShape::NorthWest,
        0b1000 => RailShape::SouthEast,
        0b1001 => RailShape::SouthWest,
        _ => RailShape::EastWest,
    }
}

/// Stair shape codes 0 through 4; any other 3-bit code falls back to Straight.
pub open spec fn spec_stairshape(bits: u16) -> StairShape {
    match bits & 0b111 {
        0b000 => StairShape::InnerLeft,
        0b001 => StairShape::InnerRight,
        0b010 => StairShape::OuterLeft,
        0b011 => StairShape::OuterRight,
        0b100 => StairShape::Straight,
        _ => StairShape::Straight,
    }
}

/// One flag bit per face, tested low to high, so the emitted order is
/// always North, South, East, West, Up, Down; no duplicates can arise and
/// an empty set is legal.
pub open spec fn spec_facing(bits: u16) -> Seq<Direction> {
    let s0 = Seq::<Direction>::empty();
    let s1 = if bits & 0b000001 == 0b000001 { s0.push(Direction::North) } else { s0 };
    let s2 = if bits & 0b000010 == 0b000010 { s1.push(Direction::South) } else { s1 };
    let s3 = if bits & 0b000100 == 0b000100 { s2.push(Direction::East) } else { s2 };
    let s4 = if bits & 0b001000 == 0b001000 { s3.push(Direction::West) } else { s3 };
    let s5 = if bits & 0b010000 == 0b010000 { s4.push(Direction::Up) } else { s4 };
    let s6 = if bits & 0b100000 == 0b100000 { s5.push(Direction::Down) } else { s5 };
    s6
}

/// What one packed 16-bit property value decodes to: the top 4 bits pick
/// the variant, the bottom 12 bits are its payload. Tag 15 is unassigned
/// and decodes to no value at all, which is an absence, not an error.
pub open spec fn spec_block_data(bits: u16) -> Option<BlockDataView> {
    let tag = (bits & 0xF000) >> 12;
    let data = bits & 0x0FFF;
    match tag {
        0b0000 => Some(BlockDataView::Orientation(spec_axis(data))),
        0b0001 => Some(BlockDataView::Age((data & 0xFF) as u8)),
        0b0010 => Some(BlockDataView::SnowLevel((data & 0xFF) as u8)),
        0b0011 => Some(BlockDataView::LiquidLevel((data & 0xFF) as u8)),
        0b0100 => Some(BlockDataView::Bisected(if data & 1 == 1 { BisectionHalf::Bottom } else { BisectionHalf::Top })),
        0b0101 => Some(BlockDataView::Direction(spec_direction(data))),
        0b0110 => Some(BlockDataView::Waterlogged(data & 1 == 1)),
        0b0111 => Some(BlockDataView::Rotation(spec_direction(data))),
        0b1000 => Some(BlockDataView::MultipleFacing(spec_facing(data))),
        0b1001 => Some(BlockDataView::Open(data & 1 == 1)),
        0b1010 => Some(BlockDataView::RailShape(spec_railshape(data))),
        0b1011 => Some(BlockDataView::StairShape(spec_stairshape(data))),
        0b1100 => Some(BlockDataView::Attached(data & 1 == 1)),
        0b1101 => Some(BlockDataView::Hinge(if data & 1 == 1 { Side::Right } else { Side::Left })),
        0b1110 => Some(BlockDataView::Farmland((data & 0xFF) as u8)),
        _ => None,
    }
}

// ---------------------------------------------------------------------------
// The exec decoders.
// ---------------------------------------------------------------------------

/// Decodes one packed 16-bit property value, or yields nothing for an
/// unassigned type tag.
pub fn from(bits: u16) -> (r: Option<DanBlockData>)
    ensures
        block_data_opt_view(r) == spec_block_data(bits),
{
    let prop_type = (bits & 0xF000) >> 12;
    let data = bits & 0x0FFF;

    Some(match prop_type {
        0b0000 => orientation(data),
        0b0001 => age(data),
        0b0010 => snowlevel(data),
        0b0011 => liquidlevel(data),
        0b0100 => bisect(data),
        0b0101 => direction(data),
        0b0110 => waterlogged(data),
        0b0111 => rotation(data),
        0b1000 => multiplefacing(data),
        0b1001 => open(data),
        0b1010 => railshape(data),
        0b1011 => stairshape(data),
        0b1100 => attached(data),
        0b1101 => hinge(data),
        0b1110 => farmland(data),
        _ => { return None; },
    })
}

pub fn attached(bits: u16) -> (r: DanBlockData)
    ensures
        r@ == BlockDataView::Attached(bits & 1 == 1),
{
    DanBlockData::Attached(bits & 1 == 1)
}

pub fn hinge(bits: u16) -> (r: DanBlockData)
    ensures
        r@ == BlockDataView::Hinge(if bits & 1 == 1 { Side::Right } else { Side::Left }),
{
    DanBlockData::Hinge(
        match bits & 1 {
            0 => Side::Left,
            1 => Side::Right,
            _ => Side::Left,
        },
    )
}

pub fn farmland(bits: u16) -> (r: DanBlockData)
    ensures
        r@ == BlockDataView::Farmland((bits & 0xFF) as u8),
{
    DanBlockData::Farmland((bits & 0xFF) as u8)
}

pub fn orientation(bits: u16) -> (r: DanBlockData)
    ensures
        r@ == BlockDataView::Orientation(spec_axis(bits)),
{
    DanBlockData::Orientation(parse_axis(bits))
}

pub fn age(bits: u16) -> (r: DanBlockData)
    ensures
        r@ == BlockDataView::Age((bits & 0xFF) as u8),
{
    DanBlockData::Age((bits & 0xFF) as u8)
}

pub fn snowlevel(bits: u16) -> (r: DanBlockData)
    ensures
        r@ == BlockDataView::SnowLevel((bits & 0xFF) as u8),
{
    DanBlockData::SnowLevel((bits & 0xFF) as u8)
}

pub fn liquidlevel(bits: u16) -> (r: DanBlockData)
    ensures
        r@ == BlockDataView::LiquidLevel((bits & 0xFF) as u8),
{
    DanBlockData::LiquidLevel((bits & 0xFF) as u8)
}

pub fn bisect(bits: u16) -> (r: DanBlockData)
    ensures
        r@ == BlockDataView::Bisected(if bits & 1 == 1 { BisectionHalf::Bottom } else { BisectionHalf::Top }),
{
    proof {
        assert(bits & 1 == 0 || bits & 1 == 1) by (bit_vector);
    }
    DanBlockData::Bisected(
        match bits & 1 {
            0 => BisectionHalf::Top,
            _ => BisectionHalf::Bottom,
        },
    )
}

pub fn direction(bits: u16) -> (r: DanBlockData)
    ensures
        r@ == BlockDataView::Direction(spec_direction(bits)),
{
    DanBlockData::Direction(parse_direction(bits))
}

pub fn waterlogged(bits: u16) -> (r: DanBlockData)
    ensures
        r@ == BlockDataView::Waterlogged(bits & 1 == 1),
{
    DanBlockData::Waterlogged(bits & 1 == 1)
}

pub fn rotation(bits: u16) -> (r: DanBlockData)
    ensures
        r@ == BlockDataView::Rotation(spec_direction(bits)),
{
    DanBlockData::Rotation(parse_direction(bits))
}

/// Emits the faces whose flag bits are set, always in the order North,
/// South, East, West, Up, Down; a payload of zero gives the empty set.
pub fn multiplefacing(bits: u16) -> (r: DanBlockData)
    ensures
        r@ == BlockDataView::MultipleFacing(spec_facing(bits)),
{
    let mut facing: Vec<Direction> = Vec::new();
    if bits & 0b000001 == 0b000001 {
        facing.push(Direction::North);
    }
    if bits & 0b000010 == 0b000010 {
        facing.push(Direction::South);
    }
    if bits & 0b000100 == 0b000100 {
        facing.push(Direction::East);
    }
    if bits & 0b001000 == 0b001000 {
        facing.push(Direction::West);
    }
    if bits & 0b010000 == 0b010000 {
        facing.push(Direction::Up);
    }
    if bits & 0b100000 == 0b100000 {
        facing.push(Direction::Down);
    }
    proof {
        assert(facing@ =~= spec_facing(bits));
    }
    DanBlockData::MultipleFacing(facing)
}

pub fn open(bits: u16) -> (r: DanBlockData)
    ensures
        r@ == BlockDataView::Open(bits & 1 == 1),
{
    DanBlockData::Open(bits & 1 == 1)
}

pub fn railshape(bits: u16) -> (r: DanBlockData)
    ensures
        r@ == BlockDataView::RailShape(spec_railshape(bits)),
{
    DanBlockData::RailShape(
        match bits & 0b1111 {
            0b0000 => RailShape::AscEast,
            0b0001 => RailShape::AscNorth,
            0b0010 => RailShape::AscSouth,
            0b0011 => RailShape::AscWest,
            0b0100 => RailShape::EastWest,
            0b0101 => RailShape::NorthEast,
            0b0110 => RailShape::NorthSouth,
            0b0111 => RailShape::NorthWest,
            0b1000 => RailShape::SouthEast,
            0b1001 => RailShape::SouthWest,
            _ => RailShape::EastWest,
        },
    )
}

pub fn stairshape(bits: u16) -> (r: DanBlockData)
    ensures
        r@ == BlockDataView::StairShape(spec_stairshape(bits)),
{
    DanBlockData::StairShape(
        match bits & 0b111 {
            0b000 => StairShape::InnerLeft,
            0b001 => StairShape::InnerRight,
            0b010 => StairShape::OuterLeft,
            0b011 => StairShape::OuterRight,
            0b100 => StairShape::Straight,
            _ => StairShape::Straight,
        },
    )
}

pub fn parse_axis(bits: u16) -> (r: Axis)
    ensures
        r == spec_axis(bits),
{
    match bits & 0b11 {
        0b00 => Axis::X,
        0b01 => Axis::Y,
        0b11 => Axis::Z,
        _ => Axis::Y,
    }
}

pub fn parse_direction(bits: u16) -> (r: Direction)
    ensures
        r == spec_direction(bits),
{
    match bits & 0b11111 {
        0b00000 => Direction::Down,
        0b00001 => Direction::East,
        0b00010 => Direction::EastNorthEast,
        0b00011 => Direction::EastSouthEast,
        0b00100 => Direction::North,
        0b00101 => Direction::NorthEast,
        0b00110 => Direction::NorthNorthEast,
        0b00111 => Direction::NorthNorthWest,
        0b01000 => Direction::NorthWest,
        0b01001 => Direction::South,
        0b01010 => Direction::SouthEast,
        0b01011 => Direction::SouthSouthEast,
        0b01100 => Direction::SouthSouthWest,
        0b01101 => Direction::SouthWest,
        0b01110 => Direction::Up,
        0b01111 => Direction::West,
        0b10000 => Direction::WestNorthWest,
        0b10001 => Direction::WestSouthWest,
        _ => Direction::North,
    }
}

/// Decoding one packed property value is total: every value whose type tag
/// is assigned (0 through 14) yields a variant, and a value with the
/// unassigned tag 15 yields no value; neither case can fail.
pub proof fn lemma_block_decode_total(bits: u16)
    ensures
        (bits & 0xF000) >> 12 <= 14 ==> spec_block_data(bits) is Some,
        (bits & 0xF000) >> 12 == 15 ==> spec_block_data(bits) is None,
        ((bits & 0xF000) >> 12 <= 14) || ((bits & 0xF000) >> 12 == 15),
{
    assert((bits & 0xF000) >> 12 <= 15) by (bit_vector);
}

} // verus!
