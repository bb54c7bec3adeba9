use vstd::prelude::*;

verus! {

#[verifier::external_type_specification]
#[verifier::external_body]
pub struct ExTextureFormat(wgpu::TextureFormat);

#[verifier::external_type_specification]
#[verifier::external_body]
pub struct ExCompositeAlphaMode(wgpu::CompositeAlphaMode);

/// Whether a texture format stores colour in the sRGB encoding.
pub uninterp spec fn srgb_of(f: wgpu::TextureFormat) -> bool;

/// Relies on wgpu's `TextureFormat::is_srgb`: whether the format is an sRGB
/// variant, which depends on the format alone.
pub assume_specification[ wgpu::TextureFormat::is_srgb ](f: &wgpu::TextureFormat) -> (r: bool)
    ensures
        r == srgb_of(*f),
;

/// The index of the first `true` at or after `i`, or `0` when there is none.
pub open spec fn first_true_from(flags: Seq<bool>, i: int) -> int
    decreases flags.len() - i,
{
    if i < 0 || i >= flags.len() {
        0
    } else if flags[i] {
        i
    } else {
        first_true_from(flags, i + 1)
    }
}

/// The format that is chosen among supported ones whose sRGB flags are
/// `flags`: the first sRGB one, else the first one.
pub open spec fn chosen_format_index(flags: Seq<bool>) -> int {
    first_true_from(flags, 0)
}

/// The sRGB flag of each format of a list.
pub open spec fn srgb_flags(formats: Seq<wgpu::TextureFormat>) -> Seq<bool> {
    formats.map_values(|f: wgpu::TextureFormat| srgb_of(f))
}

/// Picks the index of the preferred format from the formats' sRGB flags:
/// the first sRGB format, else index zero; `None` when there is no format.
pub fn choose_format_index(flags: &Vec<bool>) -> (r: Option<usize>)
    ensures
        flags@.len() == 0 <==> r is None,
        r matches Some(i) ==> i == chosen_format_index(flags@) && i < flags@.len(),
{
    if flags.len() == 0 {
        return None;
    }
    let mut i: usize = 0;
    while i < flags.len()
        invariant
            0 <= i <= flags@.len(),
            i < flags@.len() ==> first_true_from(flags@, i as int) == chosen_format_index(
                flags@,
            ),
            forall|j: int| 0 <= j < i ==> !flags@[j],
        decreases flags@.len() - i,
    {
        if flags[i] {
            return Some(i);
        }
        i = i + 1;
    }
    proof {
        lemma_no_true_gives_zero(flags@, 0);
    }
    Some(0)
}

proof fn lemma_no_true_gives_zero(flags: Seq<bool>, i: int)
    requires
        0 <= i,
        forall|j: int| 0 <= j < flags.len() ==> !flags[j],
    ensures
        first_true_from(flags, i) == 0,
    decreases flags.len() - i,
{
    if i < flags.len() {
        lemma_no_true_gives_zero(flags, i + 1);
    }
}

/// Picks the surface format: the first sRGB format of `formats`, else the
/// first one; `None` when the list is empty.
pub fn select_surface_format(formats: &Vec<wgpu::TextureFormat>) -> (r: Option<
    wgpu::TextureFormat,
>)
    ensures
        formats@.len() == 0 <==> r is None,
        r matches Some(f) ==> f == formats@[chosen_format_index(srgb_flags(formats@))],
{
    let mut flags: Vec<bool> = Vec::new();
    let mut i: usize = 0;
    while i < formats.len()
        invariant
            0 <= i <= formats@.len(),
            flags@ == srgb_flags(formats@).take(i as int),
        decreases formats@.len() - i,
    {
        let s = formats[i].is_srgb();
        flags.push(s);
        i = i + 1;
        assert(flags@ =~= srgb_flags(formats@).take(i as int));
    }
    assert(flags@ =~= srgb_flags(formats@));
    match choose_format_index(&flags) {
        None => None,
        Some(k) => Some(formats[k]),
    }
}


/// How presented frames are paced.
#[derive(Clone, Copy, Debug, PartialEq, Eq, Structural)]
pub enum PresentMode {
    AutoVsync,
    AutoNoVsync,
    Fifo,
    FifoRelaxed,
    Immediate,
    Mailbox,
}

/// Why the surface could not be configured.
#[derive(Clone, Copy, Debug, PartialEq, Eq, Structural)]
pub enum InitError {
    /// The surface supports no texture format.
    NoSurfaceFormat,
    /// The surface supports no alpha compositing mode.
    NoAlphaMode,
}

/// The configuration applied to the surface: used as a render attachment,
/// with no extra view formats.
#[derive(Clone, Copy, Debug)]
pub struct SurfaceConfig {
    pub format: wgpu::TextureFormat,
    pub width: u32,
    pub height: u32,
    pub present_mode: PresentMode,
    pub alpha_mode: wgpu::CompositeAlphaMode,
}

/// The first configuration of a surface of the given size: the preferred
/// format, vsync pacing and the first alpha mode; an error when the surface
/// supports no format, or else no alpha mode.
pub open spec fn initial_config(
    formats: Seq<wgpu::TextureFormat>,
    alpha_modes: Seq<wgpu::CompositeAlphaMode>,
    width: u32,
    height: u32,
) -> Result<SurfaceConfig, InitError> {
    if formats.len() == 0 {
        Err(InitError::NoSurfaceFormat)
    } else if alpha_modes.len() == 0 {
        Err(InitError::NoAlphaMode)
    } else {
        Ok(
            SurfaceConfig {
                format: formats[chosen_format_index(srgb_flags(formats))],
                width,
                height,
                present_mode: PresentMode::AutoVsync,
                alpha_mode: alpha_modes[0],
            },
        )
    }
}

impl SurfaceConfig {
    /// The first configuration of a surface of the given size: the preferred
    /// format (first sRGB, else first), vsync pacing, the first alpha mode.
    pub fn new(
        formats: &Vec<wgpu::TextureFormat>,
        alpha_modes: &Vec<wgpu::CompositeAlphaMode>,
        width: u32,
        height: u32,
    ) -> (r: Result<SurfaceConfig, InitError>)
        ensures
            r == initial_config(formats@, alpha_modes@, width, height),
    {
        let format = match select_surface_format(formats) {
            None => {
                return Err(InitError::NoSurfaceFormat);
            },
            Some(f) => f,
        };
        if alpha_modes.len() == 0 {
            return Err(InitError::NoAlphaMode);
        }
        Ok(
            SurfaceConfig {
                format,
                width,
                height,
                present_mode: PresentMode::AutoVsync,
                alpha_mode: alpha_modes[0],
            },
        )
    }
}

} // verus!
