//! The surface configuration, the choice of a surface format, and the kinds
//! of failure a frame can end in.

use vstd::prelude::*;

verus! {

/// `wgpu::TextureFormat`, a texel format of the graphics layer. Nothing of
/// its inside is known here.
#[verifier::external_type_specification]
#[verifier::external_body]
pub struct ExTextureFormat(wgpu::TextureFormat);

/// The reason the graphics layer gives for a frame it could not hand out:
/// `wgpu::SurfaceError`, an enum of four variants without fields. The
/// variants are left visible, so that sorting them is verified code.
#[verifier::external_type_specification]
pub struct ExSurfaceError(wgpu::SurfaceError);

/// What `wgpu::TextureFormat::is_srgb` answers for `format`: whether the
/// graphics layer counts it among its sRGB formats.
pub uninterp spec fn srgb_of(format: wgpu::TextureFormat) -> bool;

/// `wgpu::TextureFormat::is_srgb` tells whether a format is an sRGB one. It
/// reads nothing but the format, so equal formats get equal answers; which
/// formats those are is left to the graphics layer.
pub assume_specification[ wgpu::TextureFormat::is_srgb ](format: &wgpu::TextureFormat) -> (srgb: bool)
    ensures
        srgb == srgb_of(*format),
;

/// How finished frames reach the display.
#[derive(Clone, Copy, Debug, PartialEq, Eq, Structural)]
pub enum PresentMode {
    /// Frames wait in a queue for the display's refresh.
    Fifo,
    /// The newest frame replaces the one that waits: low latency, no tearing.
    Mailbox,
}

/// What a surface is configured with.
#[derive(Clone, Copy, Debug, PartialEq, Eq, Structural)]
pub struct SurfaceConfig {
    /// Position of the format in the list the surface offers.
    pub format: usize,
    pub width: u32,
    pub height: u32,
    pub present_mode: PresentMode,
    /// Position of the alpha mode in the list the surface offers.
    pub alpha_mode: usize,
    /// Most frames that may wait to be shown.
    pub frame_latency: u32,
}

/// Why a frame was not drawn.
#[derive(Clone, Copy, Debug, PartialEq, Eq, Structural)]
pub enum RenderError {
    SurfaceLost,
    OutOfMemory,
    Outdated,
    Timeout,
}

/// What the loop owes after a frame that failed.
#[derive(Clone, Copy, Debug, PartialEq, Eq, Structural)]
pub enum Recovery {
    /// Configure the surface again; the next frame may succeed.
    Reconfigure,
    /// Drop this frame and go on.
    Skip,
    /// Nothing can be done: the session ends.
    Fatal,
}

/// `idx` is the position of the first `true` in `flags`, or the first
/// position of all where `flags` holds no `true`.
pub open spec fn is_preferred(flags: Seq<bool>, idx: int) -> bool {
    &&& 0 <= idx < flags.len()
    &&& flags[idx] ==> forall|j: int| 0 <= j < idx ==> !#[trigger] flags[j]
    &&& !flags[idx] ==> idx == 0 && forall|j: int| 0 <= j < flags.len() ==> !#[trigger] flags[j]
}

/// For each format, whether it is an sRGB one.
pub open spec fn srgb_flags(formats: Seq<wgpu::TextureFormat>) -> Seq<bool> {
    Seq::new(formats.len(), |i: int| srgb_of(formats[i]))
}

/// The kind of failure that a surface error stands for.
pub open spec fn kind_of(error: wgpu::SurfaceError) -> RenderError {
    match error {
        wgpu::SurfaceError::Timeout => RenderError::Timeout,
        wgpu::SurfaceError::Outdated => RenderError::Outdated,
        wgpu::SurfaceError::Lost => RenderError::SurfaceLost,
        wgpu::SurfaceError::OutOfMemory => RenderError::OutOfMemory,
    }
}

impl RenderError {
    /// Sorts a surface error of the graphics layer into its kind.
    pub fn from_surface_error(error: &wgpu::SurfaceError) -> (kind: RenderError)
        ensures
            kind == kind_of(*error),
    {
        match error {
            wgpu::SurfaceError::Timeout => RenderError::Timeout,
            wgpu::SurfaceError::Outdated => RenderError::Outdated,
            wgpu::SurfaceError::Lost => RenderError::SurfaceLost,
            wgpu::SurfaceError::OutOfMemory => RenderError::OutOfMemory,
        }
    }

    /// What this failure asks of the loop.
    pub open spec fn recovery_spec(self) -> Recovery {
        match self {
            RenderError::SurfaceLost => Recovery::Reconfigure,
            RenderError::OutOfMemory => Recovery::Fatal,
            RenderError::Outdated => Recovery::Skip,
            RenderError::Timeout => Recovery::Skip,
        }
    }

    /// A lost surface is configured again, a frame that is outdated or timed
    /// out is skipped, and running out of memory ends the session.
    pub fn recovery(&self) -> (r: Recovery)
        ensures
            r == self.recovery_spec(),
    {
        match self {
            RenderError::SurfaceLost => Recovery::Reconfigure,
            RenderError::OutOfMemory => Recovery::Fatal,
            RenderError::Outdated => Recovery::Skip,
            RenderError::Timeout => Recovery::Skip,
        }
    }
}

/// The position of the first sRGB format, or of the first format where none
/// is sRGB. `None` only where there is no format at all.
pub fn preferred_index(flags: &Vec<bool>) -> (r: Option<usize>)
    ensures
        r.is_some() <==> flags@.len() > 0,
        r matches Some(idx) ==> is_preferred(flags@, idx as int),
{
    let n: usize = flags.len();
    if n == 0 {
        return None;
    }
    let mut i: usize = 0;
    while i < n
        invariant
            n == flags@.len(),
            0 <= i <= n,
            forall|j: int| 0 <= j < i ==> !#[trigger] flags@[j],
        decreases n - i,
    {
        if flags[i] {
            return Some(i);
        }
        i = i + 1;
    }
    Some(0)
}

/// Chooses among the formats a surface offers: the first sRGB one, or the
/// first of all where none is sRGB.
pub fn choose_format(formats: &Vec<wgpu::TextureFormat>) -> (r: Option<usize>)
    ensures
        r.is_some() <==> formats@.len() > 0,
        r matches Some(idx) ==> is_preferred(srgb_flags(formats@), idx as int),
{
    let n: usize = formats.len();
    let mut flags: Vec<bool> = Vec::new();
    let mut i: usize = 0;
    while i < n
        invariant
            n == formats@.len(),
            0 <= i <= n,
            flags@.len() == i,
            forall|j: int| 0 <= j < i ==> #[trigger] flags@[j] == srgb_of(formats@[j]),
        decreases n - i,
    {
        let srgb: bool = formats[i].is_srgb();
        flags.push(srgb);
        i = i + 1;
    }
    assert(flags@ =~= srgb_flags(formats@));
    preferred_index(&flags)
}

/// At most one position is the preferred one.
pub proof fn lemma_preferred_unique(flags: Seq<bool>, a: int, b: int)
    requires
        is_preferred(flags, a),
        is_preferred(flags, b),
    ensures
        a == b,
{
    if a < b {
        assert(!flags[a]);
    } else if b < a {
        assert(!flags[b]);
    }
}

impl SurfaceConfig {
    /// The configuration that `resize` leaves: the new size where both
    /// dimensions are positive, the old configuration otherwise.
    pub open spec fn resized(self, width: u32, height: u32) -> SurfaceConfig {
        if width > 0 && height > 0 {
            SurfaceConfig { width, height, ..self }
        } else {
            self
        }
    }

    /// The configuration of a fresh surface: the chosen format, the first
    /// alpha mode, low-latency presentation and at most two waiting frames.
    pub open spec fn fresh(format: usize, width: u32, height: u32) -> SurfaceConfig {
        SurfaceConfig {
            format,
            width,
            height,
            present_mode: PresentMode::Mailbox,
            alpha_mode: 0,
            frame_latency: 2,
        }
    }

    /// The configuration of a fresh surface with the format at `format`.
    pub fn new(format: usize, width: u32, height: u32) -> (c: SurfaceConfig)
        ensures
            c == SurfaceConfig::fresh(format, width, height),
    {
        SurfaceConfig {
            format,
            width,
            height,
            present_mode: PresentMode::Mailbox,
            alpha_mode: 0,
            frame_latency: 2,
        }
    }

    /// The configuration of a fresh surface that offers `formats` and
    /// `alpha_modes` alpha modes: the preferred format and the first alpha
    /// mode. There is none where the surface offers no format or no alpha
    /// mode.
    pub fn for_surface(
        formats: &Vec<wgpu::TextureFormat>,
        alpha_modes: usize,
        width: u32,
        height: u32,
    ) -> (r: Option<SurfaceConfig>)
        ensures
            r.is_some() <==> formats@.len() > 0 && alpha_modes > 0,
            r matches Some(c) ==> is_preferred(srgb_flags(formats@), c.format as int) && c
                == SurfaceConfig::fresh(c.format, width, height),
    {
        if alpha_modes == 0 {
            return None;
        }
        match choose_format(formats) {
            Some(format) => Some(SurfaceConfig::new(format, width, height)),
            None => None,
        }
    }

    /// Takes a new size. A size with a zero dimension is ignored. Returns
    /// whether the surface has to be configured again.
    pub fn resize(&mut self, width: u32, height: u32) -> (configure: bool)
        ensures
            *final(self) == old(self).resized(width, height),
            configure == (width > 0 && height > 0),
    {
        if width > 0 && height > 0 {
            self.width = width;
            self.height = height;
            true
        } else {
            false
        }
    }
}

/// Resizing twice to the same size leaves what resizing once leaves.
pub proof fn lemma_resize_idempotent(c: SurfaceConfig, width: u32, height: u32)
    ensures
        c.resized(width, height).resized(width, height) == c.resized(width, height),
        width > 0 && height > 0 ==> c.resized(width, height).width == width,
        width > 0 && height > 0 ==> c.resized(width, height).height == height,
{
}

/// A size with a zero dimension leaves the configuration as it was.
pub proof fn lemma_resize_zero_guard(c: SurfaceConfig, width: u32, height: u32)
    ensures
        c.resized(0, height) == c,
        c.resized(width, 0) == c,
{
}

/// Resizing changes nothing but the size.
pub proof fn lemma_resize_keeps_rest(c: SurfaceConfig, width: u32, height: u32)
    ensures
        c.resized(width, height).format == c.format,
        c.resized(width, height).present_mode == c.present_mode,
        c.resized(width, height).alpha_mode == c.alpha_mode,
        c.resized(width, height).frame_latency == c.frame_latency,
{
}

} // verus!
