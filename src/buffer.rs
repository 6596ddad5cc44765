use vstd::prelude::*;

use crate::error::ImageAnalysisError;

verus! {

/// Clamps a coordinate into `[0, n)`: the edge-replication border policy.
pub open spec fn clamp_coord(i: int, n: int) -> int {
    if i < 0 {
        0
    } else if i >= n {
        n - 1
    } else {
        i
    }
}

/// A single-channel 8-bit luminance image, stored row by row.
#[derive(Debug, Clone)]
pub struct LumaImage {
    pub width: u32,
    pub height: u32,
    pub samples: Vec<u8>,
}

impl LumaImage {
    /// The storage holds exactly one sample per pixel.
    pub open spec fn wf(&self) -> bool {
        self.samples@.len() == self.width as int * self.height as int
    }

    /// The sample at `(x, y)`, with coordinates outside the image clamped to
    /// the nearest border pixel.
    pub open spec fn sample(&self, x: int, y: int) -> int {
        self.samples@[clamp_coord(y, self.height as int) * self.width as int + clamp_coord(
            x,
            self.width as int,
        )] as int
    }

    /// Builds an image from its dimensions and row-major samples.
    pub fn new(width: u32, height: u32, samples: Vec<u8>) -> (r: Result<
        LumaImage,
        ImageAnalysisError,
    >)
        ensures
            samples@.len() == width as int * height as int <==> r is Ok,
            r is Err ==> r->Err_0 == ImageAnalysisError::InvalidInput,
            r matches Ok(img) ==> img.width == width && img.height == height && img.samples@
                == samples@ && img.wf(),
    {
        let w: usize = width as usize;
        let h: usize = height as usize;
        let len: usize = samples.len();
        let fits = match w.checked_mul(h) {
            Some(n) => n == len,
            None => false,
        };
        if fits {
            Ok(LumaImage { width, height, samples })
        } else {
            Err(ImageAnalysisError::InvalidInput)
        }
    }
}

/// The signed edge response of a luminance image, stored row by row.
#[derive(Debug, Clone)]
pub struct EdgeResponse {
    pub width: u32,
    pub height: u32,
    pub samples: Vec<i16>,
}

impl EdgeResponse {
    /// The storage holds exactly one sample per pixel.
    pub open spec fn wf(&self) -> bool {
        self.samples@.len() == self.width as int * self.height as int
    }

    /// The response samples as integers.
    pub open spec fn values(&self) -> Seq<int> {
        self.samples@.map_values(|v: i16| v as int)
    }

    /// Builds a response buffer from its dimensions and row-major samples.
    pub fn new(width: u32, height: u32, samples: Vec<i16>) -> (r: Result<
        EdgeResponse,
        ImageAnalysisError,
    >)
        ensures
            samples@.len() == width as int * height as int <==> r is Ok,
            r is Err ==> r->Err_0 == ImageAnalysisError::InvalidInput,
            r matches Ok(e) ==> e.width == width && e.height == height && e.samples@ == samples@
                && e.wf(),
    {
        let w: usize = width as usize;
        let h: usize = height as usize;
        let len: usize = samples.len();
        let fits = match w.checked_mul(h) {
            Some(n) => n == len,
            None => false,
        };
        if fits {
            Ok(EdgeResponse { width, height, samples })
        } else {
            Err(ImageAnalysisError::InvalidInput)
        }
    }
}

} // verus!
