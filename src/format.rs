use vstd::prelude::*;

verus! {

#[verifier::external_type_specification]
#[verifier::external_body]
pub struct ExTextureFormat(wgpu::TextureFormat);

/// Whether a texture format stores colour in the display-referred (sRGB)
/// encoding, as wgpu classifies it.
pub uninterp spec fn srgb_format(f: wgpu::TextureFormat) -> bool;

/// Relies on wgpu's `TextureFormat::is_srgb`, which depends on the format
/// alone.
#[verifier::external_body]
fn is_srgb(f: &wgpu::TextureFormat) -> (r: bool)
    ensures
        r == srgb_format(*f),
{
    f.is_srgb()
}

/// Index `i` is the chosen one among `flags`: the first `true` flag, or the
/// first entry where no flag is `true`.
pub open spec fn is_choice(flags: Seq<bool>, i: int) -> bool {
    &&& 0 <= i < flags.len()
    &&& forall|j: int| 0 <= j < i ==> !flags[j]
    &&& if exists|j: int| 0 <= j < flags.len() && flags[j] {
        flags[i]
    } else {
        i == 0
    }
}

/// Picks a surface format from the flags that mark the sRGB entries of the
/// supported list: the first sRGB one, else the first of the list.
pub fn pick_format(flags: &Vec<bool>) -> (r: Option<usize>)
    ensures
        match r {
            None => flags@.len() == 0,
            Some(i) => is_choice(flags@, i as int),
        },
{
    if flags.len() == 0 {
        return None;
    }
    let mut i: usize = 0;
    while i < flags.len()
        invariant
            i <= flags@.len(),
            forall|j: int| 0 <= j < i ==> !flags@[j],
        decreases flags@.len() - i,
    {
        if flags[i] {
            return Some(i);
        }
        i = i + 1;
    }
    Some(0)
}

/// Picks the surface format among those the surface supports: the first
/// sRGB one, else the first supported one; `None` when none is supported.
pub fn choose_surface_format(formats: &Vec<wgpu::TextureFormat>) -> (r: Option<usize>)
    ensures
        match r {
            None => formats@.len() == 0,
            Some(i) => is_choice(formats@.map_values(|f: wgpu::TextureFormat| srgb_format(f)), i as int),
        },
{
    let mut flags: Vec<bool> = Vec::new();
    let mut k: usize = 0;
    while k < formats.len()
        invariant
            k <= formats@.len(),
            flags@.len() == k,
            forall|j: int| 0 <= j < k ==> flags@[j] == srgb_format(#[trigger] formats@[j]),
        decreases formats@.len() - k,
    {
        let flag = is_srgb(&formats[k]);
        flags.push(flag);
        k = k + 1;
    }
    proof {
        assert(flags@ =~= formats@.map_values(|f: wgpu::TextureFormat| srgb_format(f)));
    }
    pick_format(&flags)
}

} // verus!
