//! Cutting a cross-shaped sky image into the six faces of a cube map.
//!
//! The image is four faces wide and three faces high:
//!
//! ```text
//!     +Y
//! -X  +Z  +X  -Z
//!     -Y
//! ```
//!
//! Pixels are four bytes, red, green, blue and alpha, stored row by row.
//! The faces come out in the order `+X, -X, +Y, -Y, +Z, -Z`.

use vstd::prelude::*;

verus! {

/// Number of faces of a cube map.
pub const CUBEMAP_FACES: usize = 6;

/// Bytes per pixel.
pub const BYTES_PER_PIXEL: usize = 4;

/// Column of the cross, counted in faces, that holds each cube-map face.
pub const FACE_COLUMNS: [u32; 6] = [2, 0, 1, 1, 1, 3];

/// Row of the cross, counted in faces, that holds each cube-map face.
pub const FACE_ROWS: [u32; 6] = [1, 1, 0, 2, 1, 1];

/// A decoded image: `width * height` pixels of four bytes, row by row.
#[derive(Clone, Debug)]
pub struct RgbaImage {
    /// Width in pixels.
    pub width: u32,
    /// Height in pixels.
    pub height: u32,
    /// The pixel bytes; any bytes beyond the last pixel are ignored.
    pub data: Vec<u8>,
}

/// Why an image cannot be cut into cube-map faces.
#[derive(Clone, Copy, Debug, PartialEq, Eq, Structural)]
pub enum CubemapError {
    /// The bytes are not an image that the decoder reads.
    Decode,
    /// The image is not four units wide for every three units of height.
    InvalidDimensions,
    /// The pixel data ends before the last pixel.
    TruncatedPixels,
}

/// Whether an image of this size is a cross of square faces.
pub open spec fn is_cross(width: int, height: int) -> bool {
    width * 3 == height * 4
}

/// Index in the image data of byte `b` of row `y` of face `face`, in a
/// cross of the given width whose faces are `face_size` pixels wide.
pub open spec fn cross_byte(width: int, face_size: int, face: int, y: int, b: int) -> int {
    ((FACE_ROWS[face] * face_size + y) * width + FACE_COLUMNS[face] * face_size) * 4 + b
}

/// Index in the data of a face of byte `b` of row `y`.
pub open spec fn face_byte(face_size: int, y: int, b: int) -> int {
    y * (4 * face_size) + b
}

/// Whether `out` is face `face` cut out of the cross `data`: `face_size`
/// rows of `4 * face_size` bytes, each copied from its place in the cross.
pub open spec fn is_face_of(data: Seq<u8>, width: int, face_size: int, face: int, out: Seq<u8>) -> bool {
    &&& out.len() == face_size * (4 * face_size)
    &&& forall|y: int, b: int|
        0 <= y < face_size && 0 <= b < 4 * face_size ==> #[trigger] out[face_byte(face_size, y, b)]
            == data[cross_byte(width, face_size, face, y, b)]
}

/// An image that is four units wide for every three units of height is
/// made of whole square faces: a quarter of the width is a third of the height.
pub proof fn lemma_cross_has_square_faces(width: int, height: int)
    requires
        0 <= width,
        0 <= height,
        is_cross(width, height),
    ensures
        width == 4 * (width / 4),
        height == 3 * (width / 4),
{
    assert(width % 4 == 0) by {
        assert((width * 3) % 4 == 0);
        assert(width * 3 == 4 * width - width);
    }
}

/// Every byte of every face lies inside the cross, and the rows of a face
/// have their places in the data of the face.
pub proof fn lemma_cross_byte_in_bounds(face_size: int, face: int, y: int, b: int)
    requires
        0 <= face < CUBEMAP_FACES,
        0 <= y < face_size,
        0 <= b < 4 * face_size,
    ensures
        0 <= cross_byte(4 * face_size, face_size, face, y, b) < 4 * ((4 * face_size) * (3 * face_size)),
        0 <= face_byte(face_size, y, b) < face_size * (4 * face_size),
        0 <= (FACE_ROWS[face] * face_size + y) * (4 * face_size) + FACE_COLUMNS[face] * face_size < (4
            * face_size) * (3 * face_size),
{
    let width = 4 * face_size;
    let row = FACE_ROWS[face] * face_size + y;
    let start = FACE_COLUMNS[face] * face_size;
    assert(0 <= FACE_ROWS[face] <= 2);
    assert(0 <= FACE_COLUMNS[face] <= 3);
    assert(0 <= row < 3 * face_size) by (nonlinear_arith)
        requires
            row == FACE_ROWS[face] * face_size + y,
            0 <= FACE_ROWS[face] <= 2,
            0 <= y < face_size,
    ;
    assert(0 <= start <= 3 * face_size) by (nonlinear_arith)
        requires
            start == FACE_COLUMNS[face] * face_size,
            0 <= FACE_COLUMNS[face] <= 3,
            0 <= face_size,
    ;
    assert(0 <= row * width && row * width + width <= width * (3 * face_size)) by (nonlinear_arith)
        requires
            0 <= row < 3 * face_size,
            0 <= width,
    ;
    assert(0 <= y * (4 * face_size) && y * (4 * face_size) + 4 * face_size <= face_size * (4
        * face_size)) by (nonlinear_arith)
        requires
            0 <= y < face_size,
    ;
}

/// Width of one face of a cross image of the given size.
pub fn cross_face_size(width: u32, height: u32) -> (size: Result<u32, CubemapError>)
    ensures
        size is Ok <==> is_cross(width as int, height as int),
        size matches Ok(face_size) ==> width == 4 * face_size && height == 3 * face_size,
        size matches Err(error) ==> error == CubemapError::InvalidDimensions,
{
    let wide: u64 = width as u64;
    let high: u64 = height as u64;
    if wide * 3 != high * 4 {
        return Err(CubemapError::InvalidDimensions);
    }
    proof {
        lemma_cross_has_square_faces(width as int, height as int);
    }
    Ok(width / 4)
}

/// Cuts face `face` out of a cross image whose faces are `face_size` pixels wide.
pub fn extract_face(image: &RgbaImage, face_size: u32, face: usize) -> (out: Vec<u8>)
    requires
        face < CUBEMAP_FACES,
        image.width == 4 * face_size,
        image.height == 3 * face_size,
        image.data@.len() >= 4 * (image.width * image.height),
    ensures
        is_face_of(image.data@, image.width as int, face_size as int, face as int, out@),
{
    let size: usize = face_size as usize;
    let width: usize = image.width as usize;
    let row_offset: usize = FACE_ROWS[face] as usize;
    let column_offset: usize = FACE_COLUMNS[face] as usize;
    let mut out: Vec<u8> = Vec::new();
    if size == 0 {
        return out;
    }
    let length = image.data.len();
    proof {
        lemma_cross_byte_in_bounds(face_size as int, face as int, 0, 0);
    }
    let row_bytes: usize = 4 * size;
    let mut y: usize = 0;
    while y < size
        invariant
            face < CUBEMAP_FACES,
            0 < size == face_size,
            width == 4 * size,
            row_bytes == 4 * size,
            row_offset == FACE_ROWS[face as int],
            column_offset == FACE_COLUMNS[face as int],
            image.width == 4 * face_size,
            image.height == 3 * face_size,
            image.data@.len() >= 4 * (image.width * image.height),
            image.data@.len() == length,
            y <= size,
            out@.len() == y * (4 * size),
            forall|r: int, b: int|
                0 <= r < y && 0 <= b < 4 * size ==> #[trigger] out@[face_byte(size as int, r, b)]
                    == image.data@[cross_byte(width as int, size as int, face as int, r, b)],
        decreases size - y,
    {
        proof {
            lemma_cross_byte_in_bounds(size as int, face as int, y as int, 0);
            let row = row_offset * size + y;
            assert(0 <= row_offset * size <= row) by (nonlinear_arith)
                requires
                    row == row_offset * size + y,
                    0 <= row_offset,
                    0 <= size,
                    0 <= y,
            ;
            assert(0 <= row <= row * width) by (nonlinear_arith)
                requires
                    0 <= row,
                    1 <= width,
            ;
            assert(0 <= column_offset * size) by (nonlinear_arith)
                requires
                    0 <= column_offset,
                    0 <= size,
            ;
        }
        let start: usize = ((row_offset * size + y) * width + column_offset * size) * 4;
        let ghost before = out@;
        let mut b: usize = 0;
        while b < row_bytes
            invariant
                face < CUBEMAP_FACES,
                0 < size == face_size,
                width == 4 * size,
                row_bytes == 4 * size,
                image.width == 4 * face_size,
                image.height == 3 * face_size,
                image.data@.len() >= 4 * (image.width * image.height),
                image.data@.len() == length,
                y < size,
                b <= row_bytes,
                start == cross_byte(width as int, size as int, face as int, y as int, 0),
                before.len() == y * (4 * size),
                out@.len() == before.len() + b,
                forall|i: int| 0 <= i < before.len() ==> out@[i] == before[i],
                forall|c: int|
                    0 <= c < b ==> #[trigger] out@[face_byte(size as int, y as int, c)]
                        == image.data@[cross_byte(width as int, size as int, face as int, y as int, c)],
            decreases row_bytes - b,
        {
            proof {
                lemma_cross_byte_in_bounds(size as int, face as int, y as int, b as int);
            }
            out.push(image.data[start + b]);
            b = b + 1;
        }
        proof {
            assert((y + 1) * (4 * size) == y * (4 * size) + 4 * size) by (nonlinear_arith);
            assert forall|r: int, c: int|
                0 <= r < y + 1 && 0 <= c < 4 * size implies #[trigger] out@[face_byte(size as int, r, c)]
                == image.data@[cross_byte(width as int, size as int, face as int, r, c)] by {
                if r < y {
                    lemma_cross_byte_in_bounds(size as int, face as int, r, c);
                    assert(r * (4 * size) + 4 * size <= y * (4 * size)) by (nonlinear_arith)
                        requires
                            0 <= r < y,
                            0 <= size,
                    ;
                    assert(out@[face_byte(size as int, r, c)] == before[face_byte(size as int, r, c)]);
                }
            }
        }
        y = y + 1;
    }
    out
}

/// Cuts a cross image into its six faces, in the order `+X, -X, +Y, -Y, +Z, -Z`.
pub fn split_cross(image: &RgbaImage) -> (faces: Result<Vec<Vec<u8>>, CubemapError>)
    ensures
        faces is Ok <==> (is_cross(image.width as int, image.height as int) && image.data@.len() >= 4
            * (image.width * image.height)),
        faces matches Ok(list) ==> {
            &&& list@.len() == CUBEMAP_FACES
            &&& forall|face: int|
                0 <= face < CUBEMAP_FACES ==> is_face_of(
                    image.data@,
                    image.width as int,
                    image.width as int / 4,
                    face,
                    #[trigger] list@[face]@,
                )
        },
        faces matches Err(error) ==> (error == CubemapError::InvalidDimensions <==> !is_cross(
            image.width as int,
            image.height as int,
        )) && (error == CubemapError::TruncatedPixels <==> is_cross(
            image.width as int,
            image.height as int,
        )),
{
    let face_size = match cross_face_size(image.width, image.height) {
        Ok(face_size) => face_size,
        Err(error) => {
            return Err(error);
        },
    };
    assert(image.width * image.height <= 0xffff_ffff * 0xffff_ffff) by (nonlinear_arith)
        requires
            0 <= image.width <= 0xffff_ffff,
            0 <= image.height <= 0xffff_ffff,
    ;
    let needed: u128 = 4 * ((image.width as u128) * (image.height as u128));
    if (image.data.len() as u128) < needed {
        return Err(CubemapError::TruncatedPixels);
    }
    let mut list: Vec<Vec<u8>> = Vec::new();
    let mut face: usize = 0;
    while face < CUBEMAP_FACES
        invariant
            face <= CUBEMAP_FACES,
            image.width == 4 * face_size,
            image.height == 3 * face_size,
            image.data@.len() >= 4 * (image.width * image.height),
            list@.len() == face,
            forall|done: int|
                0 <= done < face ==> is_face_of(
                    image.data@,
                    image.width as int,
                    face_size as int,
                    done,
                    #[trigger] list@[done]@,
                ),
        decreases CUBEMAP_FACES - face,
    {
        let out = extract_face(image, face_size, face);
        list.push(out);
        face = face + 1;
    }
    Ok(list)
}

/// Whether `faces` are the six faces of a cube map whose faces are
/// `face_size` pixels wide: six buffers of `4 * face_size * face_size` bytes.
pub open spec fn are_square_faces(faces: Seq<Vec<u8>>, face_size: int) -> bool {
    &&& 0 <= face_size <= u32::MAX
    &&& faces.len() == CUBEMAP_FACES
    &&& forall|face: int|
        0 <= face < CUBEMAP_FACES ==> (#[trigger] faces[face])@.len() == face_size * (4 * face_size)
}

/// The error type of the image decoder, carried through unopened.
#[verifier::external_type_specification]
#[verifier::external_body]
pub struct ExImageError(image::ImageError);

/// Decodes an encoded image into four-byte pixels, or hands on the decoder's error.
///
/// Calls `image::load_from_memory` and `DynamicImage::to_rgba8`. Nothing is
/// claimed of the result: the decoder guesses the format and consults the formats
/// registered with it in the running process, so the bytes alone do not decide it.
#[verifier::external_body]
fn decode_rgba8(bytes: &Vec<u8>) -> (decoded: Result<RgbaImage, image::ImageError>) {
    let pixels = image::load_from_memory(bytes.as_slice())?.to_rgba8();
    let (width, height) = pixels.dimensions();
    Ok(RgbaImage { width, height, data: pixels.into_raw() })
}

/// Decodes a cross-shaped sky image and cuts it into the six faces of a
/// cube map, in the order `+X, -X, +Y, -Y, +Z, -Z`.
///
/// The bytes go to the decoder as they are; [`cut_decoded`] cuts what it returns.
/// Whatever that is, faces only come out of a cross of whole square faces with
/// all its pixels present: six buffers of `4 * n * n` bytes for one face width `n`.
pub fn load_cross_cubemap(bytes: &Vec<u8>) -> (faces: Result<Vec<Vec<u8>>, CubemapError>)
    ensures
        faces matches Ok(list) ==> exists|face_size: int| #[trigger] are_square_faces(list@, face_size),
{
    let decoded = decode_rgba8(bytes);
    let faces = cut_decoded(decoded);
    proof {
        if faces is Ok {
            assert(are_square_faces(faces->Ok_0@, decoded->Ok_0.width as int / 4));
        }
    }
    faces
}

/// Cuts what the decoder returned into the six faces of a cube map, in the
/// order `+X, -X, +Y, -Y, +Z, -Z`.
///
/// A decoder error becomes [`CubemapError::Decode`]; a decoded image is cut
/// as [`split_cross`] cuts it.
pub fn cut_decoded(decoded: Result<RgbaImage, image::ImageError>) -> (faces: Result<
    Vec<Vec<u8>>,
    CubemapError,
>)
    ensures
        faces is Ok <==> (decoded matches Ok(pixels) && is_cross(pixels.width as int, pixels.height as int)
            && pixels.data@.len() >= 4 * (pixels.width * pixels.height)),
        faces matches Ok(list) ==> (decoded matches Ok(pixels) && {
            &&& list@.len() == CUBEMAP_FACES
            &&& forall|face: int|
                0 <= face < CUBEMAP_FACES ==> is_face_of(
                    pixels.data@,
                    pixels.width as int,
                    pixels.width as int / 4,
                    face,
                    #[trigger] list@[face]@,
                )
            &&& are_square_faces(list@, pixels.width as int / 4)
        }),
        faces matches Err(error) ==> {
            &&& error == CubemapError::Decode <==> decoded is Err
            &&& error == CubemapError::InvalidDimensions <==> (decoded matches Ok(pixels) && !is_cross(
                pixels.width as int,
                pixels.height as int,
            ))
            &&& error == CubemapError::TruncatedPixels <==> (decoded matches Ok(pixels) && is_cross(
                pixels.width as int,
                pixels.height as int,
            ))
        },
{
    match decoded {
        Ok(pixels) => {
            let faces = split_cross(&pixels);
            proof {
                if faces is Ok {
                    let list = faces->Ok_0;
                    let face_size = pixels.width as int / 4;
                    assert forall|face: int| 0 <= face < CUBEMAP_FACES implies (#[trigger] list@[face])@.len()
                        == face_size * (4 * face_size) by {
                        assert(is_face_of(
                            pixels.data@,
                            pixels.width as int,
                            face_size,
                            face,
                            list@[face]@,
                        ));
                    }
                    assert(are_square_faces(list@, face_size));
                }
            }
            faces
        },
        Err(_) => Err(CubemapError::Decode),
    }
}

} // verus!
