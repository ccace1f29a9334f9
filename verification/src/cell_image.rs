//! The simulation surface: the one image that is both the compute kernels'
//! read-write target and the texture shown on screen.

use bevy::render::render_resource::{Extent3d, TextureDimension, TextureFormat};
use bevy::render::texture::Image;
use vstd::prelude::*;

verus! {

/// Bytes that encode one cell: four channels of eight bits.
pub const BYTES_PER_CELL: usize = 4;

/// What the GPU may do with the surface.
#[derive(Clone, Copy, Debug, PartialEq, Eq)]
pub struct SurfaceUsage {
    /// The host may write into it.
    pub copy_dst: bool,
    /// Compute kernels may bind it as a read-write storage texture.
    pub storage_binding: bool,
    /// It may be sampled as a texture for display.
    pub texture_binding: bool,
}

/// Initial content of a surface of `cells` cells: every cell has its three
/// state channels at zero and its alpha channel at the maximum.
pub open spec fn blank_cells(cells: nat) -> Seq<u8> {
    Seq::new(
        4 * cells,
        |i: int|
            if i % 4 == 3 {
                255u8
            } else {
                0u8
            },
    )
}

/// Abstract value of a [`SimulationImage`].
pub struct SimulationImageView {
    pub width: nat,
    pub height: nat,
    pub data: Seq<u8>,
    pub usage: SurfaceUsage,
}

/// Host-side description of the simulation surface: its dimensions, its
/// initial bytes in row-major order, four per cell, and its usage.
///
/// The dimensions are set when the image is created and never change.
#[derive(Debug, PartialEq, Eq)]
pub struct SimulationImage {
    width: u32,
    height: u32,
    data: Vec<u8>,
    usage: SurfaceUsage,
}

impl View for SimulationImage {
    type V = SimulationImageView;

    closed spec fn view(&self) -> SimulationImageView {
        SimulationImageView {
            width: self.width as nat,
            height: self.height as nat,
            data: self.data@,
            usage: self.usage,
        }
    }
}

impl SimulationImage {
    #[verifier::type_invariant]
    spec fn inv(self) -> bool {
        self.data@.len() == 4 * (self.width * self.height)
    }

    /// Width in cells.
    pub fn width(&self) -> (width: u32)
        ensures
            width == self@.width,
    {
        self.width
    }

    /// Height in cells.
    pub fn height(&self) -> (height: u32)
        ensures
            height == self@.height,
    {
        self.height
    }

    /// The bytes of the image, four for each of its `width * height` cells.
    pub fn data(&self) -> (data: &Vec<u8>)
        ensures
            data@ == self@.data,
            data@.len() == 4 * (self@.width * self@.height),
    {
        proof {
            use_type_invariant(self);
        }
        &self.data
    }

    /// What the GPU may do with the image.
    pub fn usage(&self) -> (usage: SurfaceUsage)
        ensures
            usage == self@.usage,
    {
        self.usage
    }

    /// Gives up the image for its bytes.
    pub fn into_data(self) -> (data: Vec<u8>)
        ensures
            data@ == self@.data,
            data@.len() == 4 * (self@.width * self@.height),
    {
        proof {
            use_type_invariant(&self);
        }
        self.data
    }
}

/// `Image::new_fill` of bevy's render crate, for a two-dimensional
/// `Rgba8Unorm` image of one layer, reduced to the bytes of the image it
/// returns.
///
/// Trusted: the bytes are `width * height` copies of the pixel
/// `[red, green, blue, alpha]`. `new_fill` sizes its buffer to the extent's
/// volume times the four bytes of the format and then overwrites every
/// four-byte chunk with the pixel. It counts the volume in `u32`, its
/// buffer is a `Vec`, which holds no more than `isize::MAX` bytes, and, in a
/// build with debug assertions, it refuses a buffer shorter than one pixel;
/// the precondition keeps to the extents on which none of this stops it.
#[verifier::external_body]
fn new_fill_rgba8(width: u32, height: u32, red: u8, green: u8, blue: u8, alpha: u8) -> (data: Vec<
    u8,
>)
    requires
        0 < width * height <= u32::MAX,
        4 * (width * height) <= isize::MAX,
    ensures
        data@.len() == 4 * (width * height),
        forall|i: int|
            0 <= i < data@.len() ==> data@[i] == (if i % 4 == 0 {
                red
            } else if i % 4 == 1 {
                green
            } else if i % 4 == 2 {
                blue
            } else {
                alpha
            }),
{
    let size = Extent3d { width, height, depth_or_array_layers: 1 };
    let pixel = [red, green, blue, alpha];
    Image::new_fill(size, TextureDimension::D2, &pixel, TextureFormat::Rgba8Unorm).data
}

/// Creates the simulation surface: `width` x `height` cells, all blank and
/// fully opaque, usable as a destination of host writes, as a compute
/// storage texture and as a sampled texture.
///
/// The number of cells must fit in 32 bits, the width in which texture
/// extents are counted, and their bytes in one allocation.
pub fn create_image(width: u32, height: u32) -> (image: SimulationImage)
    requires
        width * height <= u32::MAX,
        4 * (width * height) <= isize::MAX,
    ensures
        image@.width == width,
        image@.height == height,
        image@.data == blank_cells(width as nat * height as nat),
        image@.usage == (SurfaceUsage {
            copy_dst: true,
            storage_binding: true,
            texture_binding: true,
        }),
{
    let data = if width == 0 || height == 0 {
        assert(width * height == 0) by (nonlinear_arith)
            requires
                width == 0 || height == 0,
        ;
        Vec::new()
    } else {
        assert(0 < width * height) by (nonlinear_arith)
            requires
                width > 0,
                height > 0,
        ;
        new_fill_rgba8(width, height, 0, 0, 0, 255)
    };
    assert(data@ =~= blank_cells(width as nat * height as nat));
    SimulationImage {
        width,
        height,
        data,
        usage: SurfaceUsage { copy_dst: true, storage_binding: true, texture_binding: true },
    }
}

} // verus!
