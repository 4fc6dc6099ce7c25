//! The voxel grid: its dimensions, its flat layout and its contents.
//!
//! A volume is a dense grid of `WIDTH x HEIGHT x LENGTH` voxels with four
//! channels each (red, green, blue, alpha). Every channel value is an
//! IEEE-754 single-precision number, held here as its 32-bit pattern so that
//! the contents can be compared exactly and carried without rounding.

use vstd::prelude::*;

verus! {

/// Number of voxels along the x axis.
pub const WIDTH: usize = 128;

/// Number of voxels along the y axis (layers, lowest first).
pub const HEIGHT: usize = 10;

/// Number of voxels along the z axis.
pub const LENGTH: usize = 128;

/// Channels per voxel: red, green, blue, alpha.
pub const CHANNELS: usize = 4;

/// Position of the alpha channel inside a voxel.
pub const ALPHA: usize = 3;

/// Number of voxels in one slice of constant z: a full column of layers for
/// every x.
pub const SLICE: usize = 1_280;

/// Number of voxels in the grid.
pub const VOXELS: usize = 163_840;

/// Length of the flat sample array: every channel of every voxel.
pub const SAMPLES: usize = 655_360;

/// Number of colour samples a procedural volume consumes: three per voxel.
pub const COLOR_SAMPLES: usize = 491_520;

/// Bit pattern of the value zero (fully transparent).
pub const ZERO: u32 = 0;

/// Bit pattern of the value one (fully opaque).
pub const ONE: u32 = 0x3f80_0000;

/// Whether `(x, y, z)` names a voxel of the grid.
pub open spec fn in_grid(x: int, y: int, z: int) -> bool {
    0 <= x < WIDTH && 0 <= y < HEIGHT && 0 <= z < LENGTH
}

/// Offset of the first channel of the voxel at `(x, y, z)` in the flat array.
pub open spec fn spec_index(x: int, y: int, z: int) -> int {
    (x + y * WIDTH + z * WIDTH * HEIGHT) * 4
}

/// The column (x coordinate) of the voxel that the flat offset `i` lies in.
pub open spec fn column_of(i: int) -> int {
    i / 4 % (WIDTH as int)
}

/// The layer (y coordinate) of the voxel that the flat offset `i` lies in.
pub open spec fn layer_of(i: int) -> int {
    i / 4 / (WIDTH as int) % (HEIGHT as int)
}

/// The slice (z coordinate) of the voxel that the flat offset `i` lies in.
pub open spec fn slice_of(i: int) -> int {
    i / 4 / (SLICE as int)
}

/// Alpha of a procedural voxel: the lowest layer is open, all others solid.
pub open spec fn alpha_of_layer(y: int) -> u32 {
    if y == 0 {
        ZERO
    } else {
        ONE
    }
}

/// The procedural volume built from `colors`: voxel `n` takes its red, green
/// and blue from `colors[3n]`, `colors[3n + 1]`, `colors[3n + 2]`, and its
/// alpha from its layer.
pub open spec fn assembled(colors: Seq<u32>) -> Seq<u32> {
    Seq::new(
        SAMPLES as nat,
        |i: int|
            if i % 4 == 3 {
                alpha_of_layer(layer_of(i))
            } else {
                colors[i / 4 * 3 + i % 4]
            },
    )
}

/// The shape every procedural volume has: full length, an open lowest layer
/// and solid layers above it.
pub open spec fn has_open_floor(samples: Seq<u32>) -> bool {
    &&& samples.len() == SAMPLES
    &&& forall|x: int, y: int, z: int|
        in_grid(x, y, z) ==> samples[#[trigger] spec_index(x, y, z) + 3] == alpha_of_layer(y)
}

/// Whether every value of `samples` lies between zero and one, as a number.
pub open spec fn in_unit_range(samples: Seq<u32>) -> bool {
    forall|i: int| 0 <= i < samples.len() ==> samples[i] <= ONE
}

/// The samples that were read from the persisted volume, if any were.
pub open spec fn loaded_samples(loaded: Option<Vec<u32>>) -> Option<Seq<u32>> {
    match loaded {
        Some(samples) => Some(samples@),
        None => None,
    }
}

/// What start-up settles on: the persisted samples where there are some of
/// the grid's length, else the procedural volume, which needs a full set of
/// colour samples.
pub open spec fn startup_samples(loaded: Option<Seq<u32>>, colors: Seq<u32>) -> Option<Seq<u32>> {
    if loaded is Some && loaded->0.len() == SAMPLES {
        loaded
    } else if colors.len() == COLOR_SAMPLES {
        Some(assembled(colors))
    } else {
        None
    }
}

/// The sizes fit together: a slice is a column of layers for every x, the
/// grid is `LENGTH` slices, and the array holds every channel of every voxel.
pub proof fn lemma_sizes()
    ensures
        SLICE == WIDTH * HEIGHT,
        VOXELS == SLICE * LENGTH,
        SAMPLES == VOXELS * CHANNELS,
        COLOR_SAMPLES == VOXELS * (CHANNELS - 1),
        ALPHA == CHANNELS - 1,
{
}

/// Offset of the first channel of the voxel at `pos = [x, y, z]`.
pub fn index(pos: [usize; 3]) -> (offset: usize)
    requires
        in_grid(pos[0] as int, pos[1] as int, pos[2] as int),
    ensures
        offset == spec_index(pos[0] as int, pos[1] as int, pos[2] as int),
        offset + CHANNELS <= SAMPLES,
{
    (pos[0] + pos[1] * WIDTH + pos[2] * WIDTH * HEIGHT) * 4
}

/// The layout gives every channel of every voxel a place inside the array.
pub proof fn lemma_index_in_bounds(x: int, y: int, z: int, channel: int)
    requires
        in_grid(x, y, z),
        0 <= channel < CHANNELS,
    ensures
        0 <= spec_index(x, y, z) + channel < SAMPLES,
{
}

/// No two channels share a place: equal offsets mean the same voxel and the
/// same channel.
pub proof fn lemma_index_injective(
    x1: int,
    y1: int,
    z1: int,
    c1: int,
    x2: int,
    y2: int,
    z2: int,
    c2: int,
)
    requires
        in_grid(x1, y1, z1),
        in_grid(x2, y2, z2),
        0 <= c1 < CHANNELS,
        0 <= c2 < CHANNELS,
        spec_index(x1, y1, z1) + c1 == spec_index(x2, y2, z2) + c2,
    ensures
        x1 == x2,
        y1 == y2,
        z1 == z2,
        c1 == c2,
{
}

/// The place of a voxel's channel leads back to the voxel and the channel.
pub proof fn lemma_coordinates_of_index(x: int, y: int, z: int, channel: int)
    requires
        in_grid(x, y, z),
        0 <= channel < CHANNELS,
    ensures
        column_of(spec_index(x, y, z) + channel) == x,
        layer_of(spec_index(x, y, z) + channel) == y,
        slice_of(spec_index(x, y, z) + channel) == z,
        (spec_index(x, y, z) + channel) % 4 == channel,
{
}

/// Every place of the array is a channel of exactly one voxel of the grid.
pub proof fn lemma_offset_decomposes(i: int)
    requires
        0 <= i < SAMPLES,
    ensures
        in_grid(column_of(i), layer_of(i), slice_of(i)),
        i == spec_index(column_of(i), layer_of(i), slice_of(i)) + i % 4,
{
}

/// Layout of one voxel as the renderer receives it.
#[derive(Clone, Copy, Debug, PartialEq, Eq, Structural)]
pub enum TexelFormat {
    /// Four single-precision channels: red, green, blue, alpha.
    FloatRgba,
}

/// What the renderer needs to upload a volume as a 3D texture: a read-only
/// view of the samples, the grid's dimensions and the voxel layout.
pub struct TextureDescriptor<'a> {
    pub data: &'a Vec<u32>,
    pub width: u32,
    pub height: u32,
    pub depth: u32,
    pub format: TexelFormat,
}

/// The voxel volume. Once made it is never changed.
pub struct VoxelData {
    data: Vec<u32>,
}

impl View for VoxelData {
    type V = Seq<u32>;

    closed spec fn view(&self) -> Seq<u32> {
        self.data@
    }
}

impl VoxelData {
    /// Every volume holds exactly one sample per channel of every voxel.
    #[verifier::type_invariant]
    closed spec fn well_formed(&self) -> bool {
        self.data@.len() == SAMPLES
    }

    /// Adopts persisted samples as a volume. They are taken as they are, and
    /// only if there is one for every channel of every voxel.
    pub fn from_samples(samples: Vec<u32>) -> (volume: Option<VoxelData>)
        ensures
            volume is Some <==> samples@.len() == SAMPLES,
            volume matches Some(v) ==> v@ == samples@,
    {
        if samples.len() == SAMPLES {
            Some(VoxelData { data: samples })
        } else {
            None
        }
    }

    /// Builds the procedural volume: every sample starts at one, the alpha of
    /// the lowest layer is forced to zero, and the red, green and blue of
    /// every voxel are overwritten by the next three colour samples. Needs
    /// exactly three colour samples per voxel.
    pub fn generate(colors: &Vec<u32>) -> (volume: Option<VoxelData>)
        ensures
            volume is Some <==> colors@.len() == COLOR_SAMPLES,
            volume matches Some(v) ==> v@ == assembled(colors@) && has_open_floor(v@),
            volume matches Some(v) ==> (in_unit_range(colors@) ==> in_unit_range(v@)),
    {
        if colors.len() != COLOR_SAMPLES {
            return None;
        }
        let mut data: Vec<u32> = vec![ONE; SAMPLES];
        let mut x: usize = 0;
        while x < WIDTH
            invariant
                x <= WIDTH,
                data@.len() == SAMPLES,
                forall|i: int|
                    0 <= i < SAMPLES ==> #[trigger] data@[i] == (if i % 4 == 3 && layer_of(i) == 0
                        && column_of(i) < x {
                        ZERO
                    } else {
                        ONE
                    }),
            decreases WIDTH - x,
        {
            let mut z: usize = 0;
            while z < LENGTH
                invariant
                    x < WIDTH,
                    z <= LENGTH,
                    data@.len() == SAMPLES,
                    forall|i: int|
                        0 <= i < SAMPLES ==> #[trigger] data@[i] == (if i % 4 == 3 && layer_of(i)
                            == 0 && (column_of(i) < x || (column_of(i) == x && slice_of(i) < z)) {
                            ZERO
                        } else {
                            ONE
                        }),
                decreases LENGTH - z,
            {
                let floor: usize = index([x, 0, z]) + ALPHA;
                proof {
                    lemma_coordinates_of_index(x as int, 0, z as int, 3);
                    assert forall|i: int| 0 <= i < SAMPLES && i != floor implies !(i % 4 == 3
                        && layer_of(i) == 0 && column_of(i) == x && slice_of(i) == z) by {
                        lemma_offset_decomposes(i);
                    }
                }
                data.set(floor, ZERO);
                z += 1;
            }
            x += 1;
        }
        let mut i: usize = 0;
        while i < SAMPLES
            invariant
                i <= SAMPLES,
                colors@.len() == COLOR_SAMPLES,
                data@.len() == SAMPLES,
                forall|j: int|
                    0 <= j < SAMPLES ==> #[trigger] data@[j] == (if j % 4 == 3 {
                        alpha_of_layer(layer_of(j))
                    } else if j < i {
                        colors@[j / 4 * 3 + j % 4]
                    } else {
                        ONE
                    }),
            decreases SAMPLES - i,
        {
            if i % 4 != 3 {
                data.set(i, colors[i / 4 * 3 + i % 4]);
            }
            i += 1;
        }
        proof {
            assert(data@ =~= assembled(colors@));
            lemma_assembled_shape(colors@);
            if in_unit_range(colors@) {
                lemma_assembled_range(colors@);
            }
        }
        Some(VoxelData { data })
    }

    /// Whether start-up has to generate: there are no persisted samples, or
    /// not as many as the grid has channels. Where this is false, `new` takes
    /// the persisted samples and reads no colour.
    pub fn needs_generation(loaded: &Option<Vec<u32>>) -> (needed: bool)
        ensures
            needed <==> !(loaded_samples(*loaded) is Some && loaded_samples(*loaded)->0.len()
                == SAMPLES),
            !needed ==> forall|colors: Seq<u32>| #[trigger]
                startup_samples(loaded_samples(*loaded), colors) == loaded_samples(*loaded),
    {
        match loaded {
            Some(samples) => samples.len() != SAMPLES,
            None => true,
        }
    }

    /// The volume that start-up settles on: the persisted samples where the
    /// caller has some of the grid's length, else the procedural volume from
    /// `colors`. There is no mixture of the two.
    pub fn new(loaded: Option<Vec<u32>>, colors: &Vec<u32>) -> (volume: Option<VoxelData>)
        ensures
            volume is Some <==> startup_samples(loaded_samples(loaded), colors@) is Some,
            volume matches Some(v) ==> Some(v@) == startup_samples(loaded_samples(loaded), colors@),
    {
        match loaded {
            Some(samples) => {
                if samples.len() == SAMPLES {
                    VoxelData::from_samples(samples)
                } else {
                    VoxelData::generate(colors)
                }
            },
            None => VoxelData::generate(colors),
        }
    }

    /// The samples, one per channel of every voxel, in layout order.
    pub fn samples(&self) -> (data: &Vec<u32>)
        ensures
            data@ == self@,
            data@.len() == SAMPLES,
    {
        proof {
            use_type_invariant(self);
        }
        &self.data
    }

    /// Describes the volume for upload as a 3D texture. The view is lent,
    /// never copied, and the dimensions are those of the grid.
    pub fn texture(&self) -> (desc: TextureDescriptor<'_>)
        ensures
            desc.data@ == self@,
            desc.width == WIDTH,
            desc.height == HEIGHT,
            desc.depth == LENGTH,
            desc.format == TexelFormat::FloatRgba,
            desc.data@.len() == SAMPLES,
            desc.data@.len() == desc.width * desc.height * desc.depth * CHANNELS,
    {
        proof {
            use_type_invariant(self);
        }
        TextureDescriptor {
            data: &self.data,
            width: WIDTH as u32,
            height: HEIGHT as u32,
            depth: LENGTH as u32,
            format: TexelFormat::FloatRgba,
        }
    }
}

/// A procedural volume has the full length, an open lowest layer and solid
/// layers above it, whatever its colours are.
pub proof fn lemma_assembled_shape(colors: Seq<u32>)
    ensures
        has_open_floor(assembled(colors)),
{
    let volume = assembled(colors);
    assert forall|x: int, y: int, z: int| in_grid(x, y, z) implies volume[#[trigger] spec_index(
        x,
        y,
        z,
    ) + 3] == alpha_of_layer(y) by {
        lemma_coordinates_of_index(x, y, z, 3);
    }
}

/// Colours between zero and one give a volume whose every sample lies
/// between zero and one.
pub proof fn lemma_assembled_range(colors: Seq<u32>)
    requires
        colors.len() == COLOR_SAMPLES,
        in_unit_range(colors),
    ensures
        in_unit_range(assembled(colors)),
{
}

/// Two procedural volumes agree in length and in every alpha sample; only
/// their colours may differ.
pub proof fn lemma_shape_is_deterministic(first: Seq<u32>, second: Seq<u32>)
    ensures
        assembled(first).len() == assembled(second).len(),
        forall|i: int|
            0 <= i < SAMPLES && i % 4 == 3 ==> assembled(first)[i] == assembled(second)[i],
        forall|x: int, y: int, z: int|
            in_grid(x, y, z) ==> assembled(first)[#[trigger] spec_index(x, y, z) + 3] == assembled(
                second,
            )[spec_index(x, y, z) + 3],
{
    lemma_assembled_shape(first);
    lemma_assembled_shape(second);
}

/// Persisting a volume's samples and handing them back yields the same
/// volume: start-up adopts them unchanged, whatever colours it is offered.
pub proof fn lemma_reload_is_identity(samples: Seq<u32>, colors: Seq<u32>)
    requires
        samples.len() == SAMPLES,
    ensures
        startup_samples(Some(samples), colors) == Some(samples),
{
}

} // verus!
