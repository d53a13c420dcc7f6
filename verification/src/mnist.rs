//! The MNIST dataset files: labels and images as big-endian records, plain
//! or gzip-compressed, and a rendering of an image as text.

use byteorder::{BigEndian, ByteOrder};
use std::io::Read;
use vstd::prelude::*;
use vstd::slice::{slice_subrange, slice_to_vec};

verus! {

/// Why a dataset file could not be decoded.
#[derive(Debug, Clone, Copy, PartialEq, Eq, Structural)]
pub enum ReadError {
    /// The data ends before the record does.
    UnexpectedEof,
    /// The file does not start with the number that marks its kind.
    BadMagic,
    /// A count or a dimension that must not be negative is.
    NegativeSize,
    /// The number of pixels of one image does not fit in 32 bits.
    TooLarge,
    /// The data is not a gzip stream that can be decompressed.
    Corrupt,
}

/// The number that a label file starts with.
pub const LABELS_MAGIC: i32 = 0x0801;

/// The number that an image file starts with.
pub const IMAGES_MAGIC: i32 = 0x0803;

/// The first four bytes of `bytes` read as a big-endian two's-complement
/// number.
pub open spec fn be_i32(bytes: Seq<u8>) -> int {
    let unsigned = bytes[0] * 0x100_0000 + bytes[1] * 0x1_0000 + bytes[2] * 0x100 + bytes[3];
    if unsigned >= 0x8000_0000 {
        unsigned - 0x1_0000_0000
    } else {
        unsigned
    }
}

/// The big-endian number in the four bytes of `bytes` from `pos` on.
pub open spec fn field(bytes: Seq<u8>, pos: int) -> int {
    be_i32(bytes.subrange(pos, pos + 4))
}

/// `byteorder::ByteOrder::read_i32` of `byteorder::BigEndian`: the first four
/// bytes of `buf` as a big-endian `i32`. It panics on a shorter buffer, which
/// the precondition excludes.
#[verifier::external_body]
fn read_be_i32(buf: &[u8]) -> (r: i32)
    requires
        buf@.len() >= 4,
    ensures
        r == be_i32(buf@),
{
    BigEndian::read_i32(buf)
}

/// The big-endian number at `pos`, or the error of data that ends too early.
fn read_field(bytes: &[u8], pos: usize) -> (r: Result<i32, ReadError>)
    requires
        pos <= bytes@.len(),
    ensures
        r is Ok <==> pos + 4 <= bytes@.len(),
        r matches Ok(value) ==> value == field(bytes@, pos as int),
        r matches Err(e) ==> e == ReadError::UnexpectedEof,
{
    if bytes.len() - pos < 4 {
        return Err(ReadError::UnexpectedEof);
    }
    Ok(read_be_i32(slice_subrange(bytes, pos, pos + 4)))
}

/// What a label file holds: the magic number, the number of labels, then one
/// byte per label. Bytes after the last label are not looked at.
pub open spec fn parse_labels(bytes: Seq<u8>) -> Result<Seq<u8>, ReadError> {
    if bytes.len() < 4 {
        Err(ReadError::UnexpectedEof)
    } else if field(bytes, 0) != LABELS_MAGIC {
        Err(ReadError::BadMagic)
    } else if bytes.len() < 8 {
        Err(ReadError::UnexpectedEof)
    } else if field(bytes, 4) < 0 {
        Err(ReadError::NegativeSize)
    } else if bytes.len() < 8 + field(bytes, 4) {
        Err(ReadError::UnexpectedEof)
    } else {
        Ok(bytes.subrange(8, 8 + field(bytes, 4)))
    }
}

/// Decodes a label file.
pub fn read_labels(bytes: &[u8]) -> (r: Result<Vec<u8>, ReadError>)
    ensures
        match parse_labels(bytes@) {
            Ok(labels) => r matches Ok(v) && v@ == labels,
            Err(e) => r == Err::<Vec<u8>, ReadError>(e),
        },
{
    let magic = read_field(bytes, 0)?;
    if magic != LABELS_MAGIC {
        return Err(ReadError::BadMagic);
    }
    let count = read_field(bytes, 4)?;
    if count < 0 {
        return Err(ReadError::NegativeSize);
    }
    let count = count as usize;
    if bytes.len() - 8 < count {
        return Err(ReadError::UnexpectedEof);
    }
    Ok(slice_to_vec(slice_subrange(bytes, 8, 8 + count)))
}

/// One image of the dataset: `height` rows of `width` pixels, row by row.
pub struct Image {
    pub pixels: Vec<u8>,
    pub width: u32,
    pub height: u32,
}

/// An image as a value.
pub struct ImageView {
    pub pixels: Seq<u8>,
    pub width: u32,
    pub height: u32,
}

impl View for Image {
    type V = ImageView;

    open spec fn view(&self) -> ImageView {
        ImageView { pixels: self.pixels@, width: self.width, height: self.height }
    }
}

/// The `count` images of `size` pixels each that follow the header of an
/// image file.
pub open spec fn images_of(bytes: Seq<u8>, count: nat, width: u32, height: u32) -> Seq<
    ImageView,
> {
    Seq::new(
        count,
        |i: int|
            ImageView {
                pixels: bytes.subrange(16 + i * (width * height), 16 + (i + 1) * (width * height)),
                width,
                height,
            },
    )
}

/// What an image file holds: the magic number, the number of images, their
/// width and their height, then the pixels of one image after the other. A
/// count that is not positive stands for no image at all; bytes after the
/// last image are not looked at.
pub open spec fn parse_images(bytes: Seq<u8>) -> Result<Seq<ImageView>, ReadError> {
    if bytes.len() < 4 {
        Err(ReadError::UnexpectedEof)
    } else if field(bytes, 0) != IMAGES_MAGIC {
        Err(ReadError::BadMagic)
    } else if bytes.len() < 12 {
        Err(ReadError::UnexpectedEof)
    } else if field(bytes, 8) < 0 {
        Err(ReadError::NegativeSize)
    } else if bytes.len() < 16 {
        Err(ReadError::UnexpectedEof)
    } else if field(bytes, 12) < 0 {
        Err(ReadError::NegativeSize)
    } else if field(bytes, 4) <= 0 {
        Ok(Seq::empty())
    } else if field(bytes, 8) * field(bytes, 12) > u32::MAX {
        Err(ReadError::TooLarge)
    } else if bytes.len() < 16 + field(bytes, 4) * (field(bytes, 8) * field(bytes, 12)) {
        Err(ReadError::UnexpectedEof)
    } else {
        Ok(
            images_of(
                bytes,
                field(bytes, 4) as nat,
                field(bytes, 8) as u32,
                field(bytes, 12) as u32,
            ),
        )
    }
}

/// The views of the images in `images`.
pub open spec fn views_of(images: Seq<Image>) -> Seq<ImageView> {
    Seq::new(images.len(), |i: int| images[i]@)
}

/// Decodes an image file.
pub fn read_images(bytes: &[u8]) -> (r: Result<Vec<Image>, ReadError>)
    ensures
        match parse_images(bytes@) {
            Ok(images) => r matches Ok(v) && views_of(v@) == images,
            Err(e) => r matches Err(f) && f == e,
        },
        r matches Ok(v) ==> forall|i: int| 0 <= i < v@.len() ==> (#[trigger] v@[i]).complete(),
{
    let magic = read_field(bytes, 0)?;
    if magic != IMAGES_MAGIC {
        return Err(ReadError::BadMagic);
    }
    let count = read_field(bytes, 4)?;
    let width = read_field(bytes, 8)?;
    if width < 0 {
        return Err(ReadError::NegativeSize);
    }
    let width = width as u32;
    let height = read_field(bytes, 12)?;
    if height < 0 {
        return Err(ReadError::NegativeSize);
    }
    let height = height as u32;
    let mut images: Vec<Image> = Vec::new();
    if count <= 0 {
        assert(views_of(images@) =~= Seq::<ImageView>::empty());
        return Ok(images);
    }
    let size = match width.checked_mul(height) {
        Some(size) => size as usize,
        None => {
            return Err(ReadError::TooLarge);
        },
    };
    let mut pos: usize = 16;
    let mut i: i32 = 0;
    while i < count
        invariant
            0 <= i <= count,
            bytes@.len() >= 16,
            field(bytes@, 0) == IMAGES_MAGIC,
            field(bytes@, 4) == count,
            field(bytes@, 8) == width,
            field(bytes@, 12) == height,
            size == width * height,
            size <= u32::MAX,
            16 <= pos <= bytes@.len(),
            pos == 16 + i * size,
            images@.len() == i,
            views_of(images@) == images_of(bytes@, i as nat, width, height),
            forall|j: int| 0 <= j < images@.len() ==> (#[trigger] images@[j]).complete(),
        decreases count - i,
    {
        if bytes.len() - pos < size {
            assert(bytes@.len() < 16 + count * size) by (nonlinear_arith)
                requires
                    bytes@.len() < 16 + i * size + size,
                    0 <= i < count,
                    0 <= size,
            ;
            return Err(ReadError::UnexpectedEof);
        }
        assert(16 + (i + 1) * size == pos + size) by (nonlinear_arith)
            requires
                pos == 16 + i * size,
        ;
        let pixels = slice_to_vec(slice_subrange(bytes, pos, pos + size));
        let ghost before = images@;
        images.push(Image { pixels, width, height });
        assert(views_of(images@) =~= images_of(bytes@, (i + 1) as nat, width, height)) by {
            assert forall|j: int| 0 <= j < i implies views_of(images@)[j] == images_of(
                bytes@,
                (i + 1) as nat,
                width,
                height,
            )[j] by {
                assert(views_of(before)[j] == images_of(bytes@, i as nat, width, height)[j]);
            }
        }
        pos = pos + size;
        i = i + 1;
    }
    Ok(images)
}

/// What the gzip stream `bytes` decompresses to: the data of its first
/// member, or `None` where the stream is damaged or incomplete.
pub uninterp spec fn gunzipped(bytes: Seq<u8>) -> Option<Seq<u8>>;

/// `flate2::read::GzDecoder` over `bytes`, read to its end with
/// `std::io::Read::read_to_end`: the decompressed data, or `None` where the
/// decoder reports an error.
#[verifier::external_body]
fn gunzip(bytes: &[u8]) -> (r: Option<Vec<u8>>)
    ensures
        r is Some <==> gunzipped(bytes@) is Some,
        r matches Some(data) ==> data@ == gunzipped(bytes@).unwrap(),
{
    let mut data = Vec::new();
    match flate2::read::GzDecoder::new(bytes).read_to_end(&mut data) {
        Ok(_) => Some(data),
        Err(_) => None,
    }
}

/// Decodes a gzip-compressed label file.
pub fn read_labels_from_gz(bytes: &[u8]) -> (r: Result<Vec<u8>, ReadError>)
    ensures
        match gunzipped(bytes@) {
            None => r == Err::<Vec<u8>, ReadError>(ReadError::Corrupt),
            Some(data) => match parse_labels(data) {
                Ok(labels) => r matches Ok(v) && v@ == labels,
                Err(e) => r == Err::<Vec<u8>, ReadError>(e),
            },
        },
{
    match gunzip(bytes) {
        Some(data) => read_labels(data.as_slice()),
        None => Err(ReadError::Corrupt),
    }
}

/// Decodes a gzip-compressed image file.
pub fn read_images_from_gz(bytes: &[u8]) -> (r: Result<Vec<Image>, ReadError>)
    ensures
        match gunzipped(bytes@) {
            None => r matches Err(e) && e == ReadError::Corrupt,
            Some(data) => match parse_images(data) {
                Ok(images) => r matches Ok(v) && views_of(v@) == images,
                Err(e) => r matches Err(f) && f == e,
            },
        },
        r matches Ok(v) ==> forall|i: int| 0 <= i < v@.len() ==> (#[trigger] v@[i]).complete(),
{
    match gunzip(bytes) {
        Some(data) => read_images(data.as_slice()),
        None => Err(ReadError::Corrupt),
    }
}

/// The character that stands for a pixel of the given brightness.
pub open spec fn shade(pixel: u8) -> char {
    if pixel <= 63 {
        ' '
    } else if pixel <= 127 {
        '-'
    } else if pixel <= 191 {
        'x'
    } else {
        'X'
    }
}

/// The line above and below an image of the given width.
pub open spec fn border(width: nat) -> Seq<char> {
    seq!['+'] + Seq::new(2 * width, |i: int| '-') + seq!['+', '\n']
}

/// The first `n` pixels of row `y`, two characters for each.
pub open spec fn cells(pixels: Seq<u8>, width: nat, y: nat, n: nat) -> Seq<char> {
    Seq::new(2 * n, |i: int| shade(pixels[y * width + i / 2]))
}

/// Row `y` between its two bars.
pub open spec fn row(pixels: Seq<u8>, width: nat, y: nat) -> Seq<char> {
    seq!['|'] + cells(pixels, width, y, width) + seq!['|', '\n']
}

/// The first `height` rows, one line each.
pub open spec fn rows(pixels: Seq<u8>, width: nat, height: nat) -> Seq<char>
    decreases height,
{
    if height == 0 {
        Seq::empty()
    } else {
        rows(pixels, width, (height - 1) as nat) + row(pixels, width, (height - 1) as nat)
    }
}

impl ImageView {
    /// The image as text: an empty line, then the rows in a frame.
    pub open spec fn rendered(self) -> Seq<char> {
        seq!['\n'] + border(self.width as nat) + rows(
            self.pixels,
            self.width as nat,
            self.height as nat,
        ) + border(self.width as nat)
    }
}

/// `String::push`: appends one character to the text.
#[verifier::external_body]
fn push_char(text: &mut String, c: char)
    ensures
        final(text)@ == old(text)@.push(c),
{
    text.push(c);
}

/// Appends the line that frames an image of the given width.
fn push_border(text: &mut String, width: u32)
    ensures
        final(text)@ == old(text)@ + border(width as nat),
{
    let ghost start = text@;
    push_char(text, '+');
    let mut x: u32 = 0;
    while x < width
        invariant
            x <= width,
            text@ == start + seq!['+'] + Seq::new(2 * (x as nat), |i: int| '-'),
        decreases width - x,
    {
        push_char(text, '-');
        push_char(text, '-');
        x = x + 1;
        assert(text@ =~= start + seq!['+'] + Seq::new(2 * (x as nat), |i: int| '-'));
    }
    push_char(text, '+');
    push_char(text, '\n');
    assert(text@ =~= start + border(width as nat));
}

impl Image {
    /// The image holds exactly `width * height` pixels, and that number fits
    /// in 32 bits.
    pub open spec fn complete(&self) -> bool {
        &&& self.pixels@.len() == self.width * self.height
        &&& self.width * self.height <= u32::MAX
    }

    /// Every pixel of every row exists and its offset fits in 32 bits. A
    /// complete image is renderable.
    pub open spec fn renderable(&self) -> bool {
        self.width > 0 && self.height > 0 ==> {
            &&& self.width * self.height <= self.pixels@.len()
            &&& self.width * self.height <= u32::MAX + 1
        }
    }

    /// The character that stands for a pixel of the given brightness.
    pub fn shade(pixel: u8) -> (r: char)
        ensures
            r == shade(pixel),
    {
        if pixel <= 63 {
            ' '
        } else if pixel <= 127 {
            '-'
        } else if pixel <= 191 {
            'x'
        } else {
            'X'
        }
    }

    /// The image as text: an empty line, then the rows in a frame, each
    /// pixel two characters wide.
    pub fn render(&self) -> (r: String)
        requires
            self.renderable(),
        ensures
            r@ == self@.rendered(),
    {
        let ghost pixels = self.pixels@;
        let ghost w = self.width as nat;
        let mut text = String::new();
        push_char(&mut text, '\n');
        push_border(&mut text, self.width);
        let ghost head = text@;
        let mut y: u32 = 0;
        while y < self.height
            invariant
                y <= self.height,
                self.renderable(),
                pixels == self.pixels@,
                w == self.width,
                head == seq!['\n'] + border(w),
                text@ == head + rows(pixels, w, y as nat),
            decreases self.height - y,
        {
            let ghost done = text@;
            push_char(&mut text, '|');
            let mut x: u32 = 0;
            while x < self.width
                invariant
                    x <= self.width,
                    y < self.height,
                    self.renderable(),
                    pixels == self.pixels@,
                    w == self.width,
                    text@ == done + seq!['|'] + cells(pixels, w, y as nat, x as nat),
                decreases self.width - x,
            {
                assert(y * self.width + x < self.width * self.height) by (nonlinear_arith)
                    requires
                        x < self.width,
                        y < self.height,
                ;
                let pixel = self.pixels[(y * self.width + x) as usize];
                let c = Self::shade(pixel);
                push_char(&mut text, c);
                push_char(&mut text, c);
                x = x + 1;
                assert(text@ =~= done + seq!['|'] + cells(pixels, w, y as nat, x as nat));
            }
            push_char(&mut text, '|');
            push_char(&mut text, '\n');
            assert(text@ =~= done + row(pixels, w, y as nat));
            y = y + 1;
            assert(text@ =~= head + rows(pixels, w, y as nat));
        }
        push_border(&mut text, self.width);
        text
    }
}

} // verus!
