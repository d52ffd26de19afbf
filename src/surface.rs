use vstd::prelude::*;

use egui_wgpu::wgpu::TextureFormat;

verus! {

#[verifier::external_type_specification]
#[verifier::external_body]
pub struct ExTextureFormat(TextureFormat);

/// Whether wgpu counts `f` as an sRGB format; it depends on the format alone.
pub uninterp spec fn srgb_format(f: TextureFormat) -> bool;

/// Relies on wgpu's `TextureFormat::is_srgb`: whether the format is an sRGB one.
#[verifier::external_body]
fn format_is_srgb(f: &TextureFormat) -> (r: bool)
    ensures
        r == srgb_format(*f),
{
    f.is_srgb()
}

/// How frames are handed to the display.
#[derive(Clone, Copy, Debug, PartialEq, Eq, Structural)]
pub enum PresentMode {
    AutoVsync,
    AutoNoVsync,
    Fifo,
    FifoRelaxed,
    Immediate,
    Mailbox,
}

/// Low latency first, then vsync, then whatever comes first.
pub open spec fn preferred_present_mode(modes: Seq<PresentMode>) -> Option<PresentMode> {
    if modes.contains(PresentMode::Mailbox) {
        Some(PresentMode::Mailbox)
    } else if modes.contains(PresentMode::Fifo) {
        Some(PresentMode::Fifo)
    } else if modes.len() > 0 {
        Some(modes[0])
    } else {
        None
    }
}

fn contains_mode(modes: &Vec<PresentMode>, m: PresentMode) -> (r: bool)
    ensures
        r == modes@.contains(m),
{
    let mut i: usize = 0;
    while i < modes.len()
        invariant
            i <= modes@.len(),
            forall|j: int| 0 <= j < i ==> modes@[j] != m,
        decreases modes@.len() - i,
    {
        if modes[i] == m {
            return true;
        }
        i = i + 1;
    }
    false
}

/// Picks the present mode among those the surface offers; `None` when it offers none.
pub fn select_present_mode(modes: &Vec<PresentMode>) -> (r: Option<PresentMode>)
    ensures
        r == preferred_present_mode(modes@),
{
    if contains_mode(modes, PresentMode::Mailbox) {
        Some(PresentMode::Mailbox)
    } else if contains_mode(modes, PresentMode::Fifo) {
        Some(PresentMode::Fifo)
    } else if modes.len() > 0 {
        Some(modes[0])
    } else {
        None
    }
}

/// `i` is the index of the format to use, given which offered formats are
/// sRGB: the first sRGB one, else the first one.
pub open spec fn is_preferred_format_index(srgb: Seq<bool>, i: int) -> bool {
    &&& 0 <= i < srgb.len()
    &&& forall|j: int| 0 <= j < i ==> !srgb[j]
    &&& srgb[i] || (i == 0 && forall|j: int| 0 <= j < srgb.len() ==> !srgb[j])
}

/// Picks the index of the format to use, given which offered formats are sRGB;
/// `None` when none is offered.
pub fn select_format_index(srgb: &Vec<bool>) -> (r: Option<usize>)
    ensures
        r is None <==> srgb@.len() == 0,
        r matches Some(i) ==> is_preferred_format_index(srgb@, i as int),
{
    let mut i: usize = 0;
    while i < srgb.len()
        invariant
            i <= srgb@.len(),
            forall|j: int| 0 <= j < i ==> !srgb@[j],
        decreases srgb@.len() - i,
    {
        if srgb[i] {
            return Some(i);
        }
        i = i + 1;
    }
    if srgb.len() > 0 {
        Some(0)
    } else {
        None
    }
}

pub open spec fn srgb_flags(formats: Seq<TextureFormat>) -> Seq<bool> {
    formats.map_values(|f: TextureFormat| srgb_format(f))
}

/// Picks the surface format: the first sRGB one offered, else the first one;
/// `None` when none is offered.
pub fn select_surface_format(formats: &Vec<TextureFormat>) -> (r: Option<TextureFormat>)
    ensures
        r is None <==> formats@.len() == 0,
        r matches Some(f) ==> exists|i: int|
            is_preferred_format_index(srgb_flags(formats@), i) && f == formats@[i],
{
    let mut flags: Vec<bool> = Vec::new();
    let mut k: usize = 0;
    while k < formats.len()
        invariant
            k <= formats@.len(),
            flags@ =~= srgb_flags(formats@).take(k as int),
        decreases formats@.len() - k,
    {
        let s = format_is_srgb(&formats[k]);
        flags.push(s);
        k = k + 1;
    }
    assert(flags@ =~= srgb_flags(formats@));
    match select_format_index(&flags) {
        Some(i) => Some(formats[i]),
        None => None,
    }
}

/// A size in physical pixels.
#[derive(Clone, Copy, Debug, PartialEq, Eq, Structural)]
pub struct PixelSize {
    pub width: u32,
    pub height: u32,
}

impl PixelSize {
    pub open spec fn is_positive(self) -> bool {
        self.width > 0 && self.height > 0
    }
}

/// The size the surface is configured with, beside the window's last known size.
#[derive(Clone, Copy, Debug, PartialEq, Eq, Structural)]
pub struct SurfaceSizes {
    /// The window's size as last reported.
    pub window: PixelSize,
    /// The size the surface is configured with; never zero.
    pub configured: PixelSize,
}

/// `v` raised to at least 1.
pub open spec fn at_least_one(v: u32) -> u32 {
    if v == 0 { 1 } else { v }
}

/// The sizes of a fresh surface on a window of `window`: a zero side is raised to 1.
pub open spec fn initial_sizes(window: PixelSize) -> SurfaceSizes {
    SurfaceSizes {
        window,
        configured: PixelSize { width: at_least_one(window.width), height: at_least_one(window.height) },
    }
}

/// The sizes after a request to reconfigure to `size`: dropped when a side is zero.
pub open spec fn resized(s: SurfaceSizes, size: PixelSize) -> SurfaceSizes {
    if size.is_positive() {
        SurfaceSizes { window: size, configured: size }
    } else {
        s
    }
}

impl SurfaceSizes {
    pub open spec fn wf(self) -> bool {
        self.configured.is_positive()
    }

    /// The sizes for a fresh surface on a window of `window`.
    pub fn new(window: PixelSize) -> (r: Self)
        ensures
            r == initial_sizes(window),
            r.wf(),
    {
        let width: u32 = if window.width == 0 { 1 } else { window.width };
        let height: u32 = if window.height == 0 { 1 } else { window.height };
        SurfaceSizes { window, configured: PixelSize { width, height } }
    }

    /// Takes a new window size; returns whether the surface must be configured again.
    pub fn resize(&mut self, size: PixelSize) -> (changed: bool)
        requires
            old(self).wf(),
        ensures
            *final(self) == resized(*old(self), size),
            changed == size.is_positive(),
            final(self).wf(),
    {
        if size.width > 0 && size.height > 0 {
            self.window = size;
            self.configured = size;
            true
        } else {
            false
        }
    }
}

/// A request with a zero side leaves the sizes as they were.
pub proof fn lemma_zero_resize_keeps_config(s: SurfaceSizes, size: PixelSize)
    requires
        size.width == 0 || size.height == 0,
    ensures
        resized(s, size) == s,
{
}

/// A request with both sides positive configures exactly the requested size.
pub proof fn lemma_positive_resize_takes_size(s: SurfaceSizes, size: PixelSize)
    requires
        size.width > 0,
        size.height > 0,
    ensures
        resized(s, size).configured == size,
        resized(s, size).window == size,
{
}

} // verus!
