use vstd::prelude::*;

use crate::error::ProcessError;

verus! {

/// The pixels of an interleaved buffer: the `i`-th pixel is the triple of
/// samples `3i`, `3i + 1` and `3i + 2`.
pub open spec fn pixels_of<T>(s: Seq<T>) -> Seq<(T, T, T)> {
    Seq::new(s.len() / 3, |i: int| (s[3 * i], s[3 * i + 1], s[3 * i + 2]))
}

/// The interleaved buffer of a sequence of pixels: three samples per pixel,
/// in pixel order, red first.
pub open spec fn flatten<T>(p: Seq<(T, T, T)>) -> Seq<T> {
    Seq::new(
        3 * p.len(),
        |i: int|
            if i % 3 == 0 {
                p[i / 3].0
            } else if i % 3 == 1 {
                p[i / 3].1
            } else {
                p[i / 3].2
            },
    )
}

/// Splitting a buffer whose length is a multiple of three into pixels and
/// laying the pixels out again gives back the buffer, sample for sample.
pub proof fn lemma_pixels_round_trip<T>(s: Seq<T>)
    requires
        s.len() % 3 == 0,
    ensures
        flatten(pixels_of(s)) == s,
{
    assert(flatten(pixels_of(s)) =~= s);
}

/// Laying pixels out and splitting the buffer again gives back the pixels.
pub proof fn lemma_flatten_round_trip<T>(p: Seq<(T, T, T)>)
    ensures
        pixels_of(flatten(p)) == p,
{
    assert(pixels_of(flatten(p)) =~= p);
}

/// An RGB image: `width * height` pixels of three samples each, stored row
/// by row with the channels interleaved. Values are kept as given; nothing
/// clamps them.
pub struct RGB<T> {
    width: usize,
    height: usize,
    data: Vec<T>,
}

impl<T> RGB<T> {
    /// The width in pixels.
    pub closed spec fn width_spec(&self) -> nat {
        self.width as nat
    }

    /// The height in pixels.
    pub closed spec fn height_spec(&self) -> nat {
        self.height as nat
    }

    /// The sample buffer, row-major and channel-interleaved.
    pub closed spec fn buffer(&self) -> Vec<T> {
        self.data
    }

    /// The samples, row-major and channel-interleaved.
    pub open spec fn samples(&self) -> Seq<T> {
        self.buffer()@
    }

    /// The buffer holds exactly three samples for each pixel.
    pub open spec fn wf(&self) -> bool {
        self.samples().len() == self.width_spec() * self.height_spec() * 3
    }

    #[verifier::type_invariant]
    spec fn inv(&self) -> bool {
        self.data@.len() == self.width * self.height * 3
    }

    /// The image's pixels, in row-major order.
    pub open spec fn pixel_seq(&self) -> Seq<(T, T, T)> {
        pixels_of(self.samples())
    }

    pub fn width(&self) -> (r: usize)
        ensures
            r == self.width_spec(),
            self.wf(),
    {
        proof {
            use_type_invariant(self);
        }
        self.width
    }

    pub fn height(&self) -> (r: usize)
        ensures
            r == self.height_spec(),
            self.wf(),
    {
        proof {
            use_type_invariant(self);
        }
        self.height
    }

    /// The samples, row-major and channel-interleaved.
    pub fn data(&self) -> (r: &[T])
        ensures
            r@ == self.samples(),
            self.wf(),
    {
        proof {
            use_type_invariant(self);
        }
        self.data.as_slice()
    }

    /// Takes the image apart into its width, height and sample buffer.
    pub fn into_parts(self) -> (r: (usize, usize, Vec<T>))
        ensures
            r.0 == self.width_spec(),
            r.1 == self.height_spec(),
            r.2@ == self.samples(),
            r.2@.len() == r.0 * r.1 * 3,
    {
        proof {
            use_type_invariant(&self);
        }
        (self.width, self.height, self.data)
    }

    /// Builds an image from a buffer of samples taken verbatim. Fails unless
    /// the buffer holds exactly `width * height * 3` samples.
    pub fn from_samples(width: usize, height: usize, data: Vec<T>) -> (r: Result<
        RGB<T>,
        ProcessError,
    >)
        ensures
            r is Ok <==> data@.len() == width * height * 3,
            r is Err ==> r == Err::<RGB<T>, ProcessError>(ProcessError::DataLength),
            r matches Ok(img) ==> img.width_spec() == width && img.height_spec() == height
                && img.buffer() == data && img.wf(),
    {
        let len = data.len();
        let ok = match width.checked_mul(height) {
            Some(p) => match p.checked_mul(3) {
                Some(n) => n == len,
                None => false,
            },
            None => false,
        };
        if ok {
            Ok(RGB { width, height, data })
        } else {
            proof {
                let wh = width * height;
                assert(wh >= 0) by (nonlinear_arith)
                    requires
                        wh == width * height,
                        width >= 0,
                        height >= 0,
                ;
                assert(wh * 3 >= wh);
            }
            Err(ProcessError::DataLength)
        }
    }
}

/// A cursor that walks the pixels of an image lazily, in row-major order.
pub struct PixelIter<'a, T> {
    source: &'a RGB<T>,
    current: usize,
}

impl<'a, T> PixelIter<'a, T> {
    /// The image being walked.
    pub closed spec fn source(&self) -> RGB<T> {
        *self.source
    }

    /// The index of the next pixel to hand out.
    pub closed spec fn position(&self) -> nat {
        self.current as nat / 3
    }

    #[verifier::type_invariant]
    spec fn inv(&self) -> bool {
        &&& self.current % 3 == 0
        &&& self.current <= self.source.data@.len()
    }
}

impl<'a, T: Copy> PixelIter<'a, T> {
    /// Hands out the next pixel, or `None` once every pixel has been handed
    /// out.
    pub fn next(&mut self) -> (r: Option<(T, T, T)>)
        ensures
            final(self).source() == old(self).source(),
            old(self).position() < old(self).source().pixel_seq().len() ==> r == Some(
                old(self).source().pixel_seq()[old(self).position() as int],
            ) && final(self).position() == old(self).position() + 1,
            old(self).position() >= old(self).source().pixel_seq().len() ==> r is None
                && final(self).position() == old(self).position(),
    {
        proof {
            use_type_invariant(&*self);
            use_type_invariant(self.source);
        }
        let len = self.source.data.len();
        if self.current >= len {
            return None;
        }
        let k = self.current;
        let result = (self.source.data[k], self.source.data[k + 1], self.source.data[k + 2]);
        self.current = k + 3;
        Some(result)
    }
}

/// Applies `f` to each element of `v`, in order.
fn map_vec<S: Copy, T, F: Fn(S) -> T>(v: &Vec<S>, f: &F) -> (r: Vec<T>)
    requires
        forall|x: S| f.requires((x,)),
    ensures
        r@.len() == v@.len(),
        forall|i: int| 0 <= i < v@.len() ==> f.ensures((v@[i],), #[trigger] r@[i]),
{
    let mut r: Vec<T> = Vec::new();
    let mut i: usize = 0;
    while i < v.len()
        invariant
            i <= v@.len(),
            r@.len() == i,
            forall|x: S| f.requires((x,)),
            forall|j: int| 0 <= j < i ==> f.ensures((v@[j],), #[trigger] r@[j]),
        decreases v@.len() - i,
    {
        r.push(f(v[i]));
        i = i + 1;
    }
    r
}

impl<T: Copy> RGB<T> {
    /// Builds an image from 8-bit samples, each passed through `scale`
    /// (which maps the range 0..=255 onto the normalized range). Fails
    /// unless there are exactly `width * height * 3` samples.
    pub fn from_u8<F: Fn(u8) -> T>(width: usize, height: usize, v: Vec<u8>, scale: F) -> (r:
        Result<RGB<T>, ProcessError>)
        requires
            forall|x: u8| scale.requires((x,)),
        ensures
            r is Ok <==> v@.len() == width * height * 3,
            r is Err ==> r == Err::<RGB<T>, ProcessError>(ProcessError::DataLength),
            r matches Ok(img) ==> img.width_spec() == width && img.height_spec() == height
                && img.wf() && img.samples().len() == v@.len() && forall|i: int|
                0 <= i < v@.len() ==> scale.ensures((v@[i],), #[trigger] img.samples()[i]),
    {
        let data = map_vec(&v, &scale);
        RGB::from_samples(width, height, data)
    }

    /// Builds an image from 16-bit samples, each passed through `scale`
    /// (which maps the range 0..=65535 onto the normalized range). Fails
    /// unless there are exactly `width * height * 3` samples.
    pub fn from_u16<F: Fn(u16) -> T>(width: usize, height: usize, v: Vec<u16>, scale: F) -> (r:
        Result<RGB<T>, ProcessError>)
        requires
            forall|x: u16| scale.requires((x,)),
        ensures
            r is Ok <==> v@.len() == width * height * 3,
            r is Err ==> r == Err::<RGB<T>, ProcessError>(ProcessError::DataLength),
            r matches Ok(img) ==> img.width_spec() == width && img.height_spec() == height
                && img.wf() && img.samples().len() == v@.len() && forall|i: int|
                0 <= i < v@.len() ==> scale.ensures((v@[i],), #[trigger] img.samples()[i]),
    {
        let data = map_vec(&v, &scale);
        RGB::from_samples(width, height, data)
    }

    /// The pixels as (red, green, blue) triples, in row-major order.
    pub fn pixels(&self) -> (r: Vec<(T, T, T)>)
        ensures
            r@ == self.pixel_seq(),
            r@.len() == self.width_spec() * self.height_spec(),
    {
        proof {
            use_type_invariant(self);
        }
        let len = self.data.len();
        let n = len / 3;
        let mut r: Vec<(T, T, T)> = Vec::new();
        let mut i: usize = 0;
        while i < n
            invariant
                len == self.data@.len(),
                n == len / 3,
                i <= n,
                r@.len() == i,
                forall|j: int| 0 <= j < i ==> #[trigger] r@[j] == self.pixel_seq()[j],
            decreases n - i,
        {
            let k = 3 * i;
            r.push((self.data[k], self.data[k + 1], self.data[k + 2]));
            i = i + 1;
        }
        assert(r@ =~= self.pixel_seq());
        r
    }

    /// A cursor over the pixels in row-major order, starting at the first.
    /// Each call hands out a fresh cursor, so the walk can be restarted.
    pub fn iter(&self) -> (r: PixelIter<'_, T>)
        ensures
            r.source() == *self,
            r.position() == 0,
    {
        PixelIter { source: self, current: 0 }
    }

    /// The pixel at `index` in row-major order.
    pub fn pixel(&self, index: usize) -> (r: (T, T, T))
        requires
            index < self.width_spec() * self.height_spec(),
        ensures
            r == self.pixel_seq()[index as int],
    {
        proof {
            use_type_invariant(self);
        }
        let len = self.data.len();
        assert(3 * index < len);
        let k = 3 * index;
        (self.data[k], self.data[k + 1], self.data[k + 2])
    }

    /// A new image of the same dimensions whose pixels are `pixels`, in
    /// row-major order. Fails unless there is exactly one triple per pixel.
    pub fn with_new_data(&self, pixels: Vec<(T, T, T)>) -> (r: Result<RGB<T>, ProcessError>)
        ensures
            r is Ok <==> pixels@.len() == self.width_spec() * self.height_spec(),
            r is Err ==> r == Err::<RGB<T>, ProcessError>(ProcessError::DataLength),
            r matches Ok(img) ==> img.width_spec() == self.width_spec() && img.height_spec()
                == self.height_spec() && img.samples() == flatten(pixels@) && img.wf(),
    {
        proof {
            use_type_invariant(self);
        }
        if pixels.len() != self.data.len() / 3 {
            return Err(ProcessError::DataLength);
        }
        let mut data: Vec<T> = Vec::new();
        let mut i: usize = 0;
        while i < pixels.len()
            invariant
                i <= pixels@.len(),
                pixels@.len() == self.data@.len() / 3,
                self.data@.len() == self.width * self.height * 3,
                data@.len() == 3 * i,
                forall|j: int| 0 <= j < 3 * i ==> #[trigger] data@[j] == flatten(pixels@)[j],
            decreases pixels@.len() - i,
        {
            let (a, b, c) = pixels[i];
            data.push(a);
            data.push(b);
            data.push(c);
            i = i + 1;
        }
        assert(data@ =~= flatten(pixels@));
        Ok(RGB { width: self.width, height: self.height, data })
    }

    /// A new image of the same dimensions with `f` applied to every sample.
    pub fn map_samples<F: Fn(T) -> T>(&self, f: &F) -> (r: RGB<T>)
        requires
            forall|x: T| f.requires((x,)),
        ensures
            r.width_spec() == self.width_spec(),
            r.height_spec() == self.height_spec(),
            r.wf(),
            r.samples().len() == self.samples().len(),
            forall|i: int|
                0 <= i < self.samples().len() ==> f.ensures(
                    (self.samples()[i],),
                    #[trigger] r.samples()[i],
                ),
    {
        proof {
            use_type_invariant(self);
        }
        let data = map_vec(&self.data, f);
        RGB { width: self.width, height: self.height, data }
    }
}

} // verus!
