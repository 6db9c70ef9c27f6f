//! The shape of a loaded image and its reinterpretation as a cube texture.

use bevy::render::render_resource::Extent3d;
use bevy::render::texture::Image;
use vstd::prelude::*;

verus! {

/// The number of faces of a cube texture.
pub const CUBE_FACES: u32 = 6;

/// Stands for a reference to an image resource: two handles refer to the same
/// image exactly when their identifiers are equal.
#[derive(Clone, Copy, Debug, PartialEq, Eq, Structural, Hash)]
pub struct ImageHandle {
    pub id: u64,
}

/// The shape under which a shader samples a texture.
#[derive(Clone, Copy, Debug, PartialEq, Eq, Structural)]
pub enum TextureViewDimension {
    D1,
    D2,
    D2Array,
    Cube,
    CubeArray,
    D3,
}

/// A loaded image whose height is not six times its width, so that it cannot
/// be a vertical strip of six square faces.
#[derive(Clone, Copy, Debug, PartialEq, Eq, Structural)]
pub struct MalformedAsset {
    pub width: u32,
    pub height: u32,
}

/// Whether an image of the given size is a vertical strip of six square faces.
pub open spec fn is_six_face_strip(width: u32, height: u32) -> bool {
    width > 0 && height == CUBE_FACES * width
}

/// What the renderer needs to know of a loaded image: its size in texels, the
/// number of its array layers, and the shape it asks to be sampled under.
#[derive(Clone, Copy, Debug, PartialEq, Eq, Structural)]
pub struct CubemapImage {
    pub width: u32,
    pub height: u32,
    pub layers: u32,
    pub view_dimension: Option<TextureViewDimension>,
}

/// Calls `Image::reinterpret_stacked_2d_as_array` of bevy's renderer on a
/// two-dimensional image of one layer with the given width and height, and
/// hands back the size it leaves: width, height and number of layers. As that
/// function's source has it, the width stays, the height is divided by
/// `layers`, and `layers` becomes the number of layers. It panics where
/// `layers` is zero or does not divide the height, and it multiplies width and
/// height in 32 bits, so those inputs are left out. Unverified.
#[verifier::external_body]
fn stacked_2d_as_array(width: u32, height: u32, layers: u32) -> (size: (u32, u32, u32))
    requires
        layers > 0,
        height % layers == 0,
        width * height <= u32::MAX,
    ensures
        size.0 == width,
        size.1 == height / layers,
        size.2 == layers,
{
    let mut image = Image::default();
    image.texture_descriptor.size = Extent3d { width, height, depth_or_array_layers: 1 };
    image.reinterpret_stacked_2d_as_array(layers);
    let size = image.texture_descriptor.size;
    (size.width, size.height, size.depth_or_array_layers)
}

impl CubemapImage {
    /// The texel count fits in 32 bits, the width in which the renderer
    /// computes it.
    pub open spec fn wf(&self) -> bool {
        self.width * self.height * self.layers <= u32::MAX
    }

    /// Whether the texel count of an image of this size fits in 32 bits.
    pub fn is_valid(&self) -> (valid: bool)
        ensures
            valid == self.wf(),
    {
        let max: u64 = 0xffff_ffff;
        assert(self.width * self.height <= 0xffff_ffff * 0xffff_ffff) by (nonlinear_arith)
            requires
                self.width <= 0xffff_ffff,
                self.height <= 0xffff_ffff,
        ;
        let area: u64 = (self.width as u64) * (self.height as u64);
        if area > max {
            assert(self.layers == 0 || self.width * self.height * self.layers >= self.width
                * self.height) by (nonlinear_arith);
            if self.layers == 0 {
                assert(self.width * self.height * self.layers == 0) by (nonlinear_arith)
                    requires
                        self.layers == 0,
                ;
                true
            } else {
                false
            }
        } else {
            assert(area * self.layers <= 0xffff_ffff * 0xffff_ffff) by (nonlinear_arith)
                requires
                    area <= 0xffff_ffff,
                    self.layers <= 0xffff_ffff,
            ;
            area * (self.layers as u64) <= max
        }
    }

    /// What reinterpretation makes of an image: an image of more or fewer
    /// layers than one is left as it is; a six-face strip of one layer becomes
    /// six square layers sampled as a cube; any other image of one layer is
    /// malformed.
    pub open spec fn reinterpreted(self) -> Result<CubemapImage, MalformedAsset> {
        if self.layers != 1 {
            Ok(self)
        } else if is_six_face_strip(self.width, self.height) {
            Ok(
                CubemapImage {
                    width: self.width,
                    height: self.width,
                    layers: CUBE_FACES,
                    view_dimension: Some(TextureViewDimension::Cube),
                },
            )
        } else {
            Err(MalformedAsset { width: self.width, height: self.height })
        }
    }

    /// Reinterprets a flat six-face strip as a cube texture of six layers.
    /// Returns whether the image was changed. A malformed image is rejected
    /// and left as it was.
    pub fn reinterpret_as_cube(&mut self) -> (changed: Result<bool, MalformedAsset>)
        requires
            old(self).wf(),
        ensures
            final(self).wf(),
            match old(self).reinterpreted() {
                Ok(image) => *final(self) == image && changed == Ok::<bool, MalformedAsset>(
                    old(self).layers == 1,
                ),
                Err(error) => *final(self) == *old(self) && changed == Err::<bool, MalformedAsset>(
                    error,
                ),
            },
    {
        if self.layers != 1 {
            return Ok(false);
        }
        let width: u32 = self.width;
        let height: u32 = self.height;
        if width == 0 || (height as u64) != (CUBE_FACES as u64) * (width as u64) {
            return Err(MalformedAsset { width, height });
        }
        assert(height / width == 6) by (nonlinear_arith)
            requires
                width > 0,
                height == 6 * width,
        ;
        assert(width * height <= u32::MAX && width * width * 6 == width * height)
            by (nonlinear_arith)
            requires
                width * height * 1 <= u32::MAX,
                height == 6 * width,
        ;
        let size = stacked_2d_as_array(width, height, height / width);
        self.width = size.0;
        self.height = size.1;
        self.layers = size.2;
        self.view_dimension = Some(TextureViewDimension::Cube);
        Ok(true)
    }
}

/// An image of one layer whose height is six times its width becomes exactly
/// six square layers sampled as a cube; any other image of one layer, however
/// its height relates to its width, is rejected and never given a layer count.
pub proof fn lemma_only_strips_become_cubes(image: CubemapImage)
    requires
        image.layers == 1,
    ensures
        image.width > 0 && image.height == 6 * image.width ==> image.reinterpreted() == Ok::<
            CubemapImage,
            MalformedAsset,
        >(
            CubemapImage {
                width: image.width,
                height: image.width,
                layers: 6,
                view_dimension: Some(TextureViewDimension::Cube),
            },
        ),
        image.height != 6 * image.width ==> image.reinterpreted() == Err::<
            CubemapImage,
            MalformedAsset,
        >(MalformedAsset { width: image.width, height: image.height }),
{
}

/// Reinterpretation is idempotent: what it yields, it leaves as it is.
pub proof fn lemma_reinterpretation_idempotent(image: CubemapImage)
    requires
        image.reinterpreted() is Ok,
    ensures
        image.reinterpreted()->Ok_0.reinterpreted() == image.reinterpreted(),
{
}

/// Reinterpretation keeps the texel count, so a valid image stays valid.
pub proof fn lemma_reinterpretation_keeps_texels(image: CubemapImage)
    requires
        image.reinterpreted() is Ok,
    ensures
        ({
            let cube = image.reinterpreted()->Ok_0;
            cube.width * cube.height * cube.layers == image.width * image.height * image.layers
        }),
{
    if image.layers == 1 {
        assert(image.width * image.width * 6 == image.width * (6 * image.width) * 1)
            by (nonlinear_arith);
    }
}

} // verus!
