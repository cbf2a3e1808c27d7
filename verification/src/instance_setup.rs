//! Which layers and extensions a Vulkan instance is created with, chosen from
//! those the loader reports.
use vstd::prelude::*;

verus! {

pub open spec fn validation_layer_name() -> Seq<char> {
    "VK_LAYER_KHRONOS_validation"@
}

pub open spec fn debug_utils_name() -> Seq<char> {
    "VK_EXT_debug_utils"@
}

pub open spec fn surface_name() -> Seq<char> {
    "VK_KHR_surface"@
}

/// The window system surface extensions, one of which the instance needs.
pub open spec fn is_platform_surface_name(name: Seq<char>) -> bool {
    ||| name == "VK_KHR_wayland_surface"@
    ||| name == "VK_KHR_xcb_surface"@
    ||| name == "VK_KHR_xlib_surface"@
    ||| name == "VK_KHR_android_surface"@
    ||| name == "VK_KHR_win32_surface"@
}

/// The layers enabled after the first `n` reported layers: the validation
/// layer, once, when debug layers are wanted and it is reported.
pub open spec fn layers_upto(names: Seq<Seq<char>>, debug_layers: bool, n: nat) -> Seq<Seq<char>>
    decreases n,
{
    if n == 0 {
        Seq::empty()
    } else {
        let prev = layers_upto(names, debug_layers, (n - 1) as nat);
        if names[n - 1] == validation_layer_name() && debug_layers && prev.len() == 0 {
            prev.push(validation_layer_name())
        } else {
            prev
        }
    }
}

/// The extensions chosen so far, and what they cover.
pub struct ExtensionChoice {
    pub enabled: Seq<Seq<char>>,
    pub surface: bool,
    pub platform_surface: bool,
    pub debug_utils: bool,
}

/// The choice after the first `n` reported extensions: debug utils and the
/// surface extension are taken whenever reported; of the platform surface
/// extensions only the first that is reported.
pub open spec fn extensions_upto(names: Seq<Seq<char>>, n: nat) -> ExtensionChoice
    decreases n,
{
    if n == 0 {
        ExtensionChoice { enabled: Seq::empty(), surface: false, platform_surface: false, debug_utils: false }
    } else {
        let c = extensions_upto(names, (n - 1) as nat);
        let name = names[n - 1];
        if name == debug_utils_name() {
            ExtensionChoice { enabled: c.enabled.push(name), debug_utils: true, ..c }
        } else if name == surface_name() {
            ExtensionChoice { enabled: c.enabled.push(name), surface: true, ..c }
        } else if !c.platform_surface && is_platform_surface_name(name) {
            ExtensionChoice { enabled: c.enabled.push(name), platform_surface: true, ..c }
        } else {
            c
        }
    }
}

pub open spec fn string_views(names: Seq<String>) -> Seq<Seq<char>> {
    names.map_values(|s: String| s@)
}

/// The layers to enable, from the layers the loader reports: the validation
/// layer when debug layers are wanted and it is there. The flag says whether it
/// was found.
pub fn select_instance_layers(names: &Vec<String>, debug_layers: bool) -> (r: (Vec<String>, bool))
    ensures
        string_views(r.0@) == layers_upto(string_views(names@), debug_layers, names@.len()),
        r.1 == (r.0@.len() > 0),
{
    let ghost v = string_views(names@);
    let n = names.len();
    let mut enabled: Vec<String> = Vec::new();
    let mut supports_validation = false;
    let mut i: usize = 0;
    while i < n
        invariant
            n == names.len(),
            i <= n,
            v == string_views(names@),
            string_views(enabled@) == layers_upto(v, debug_layers, i as nat),
            supports_validation == (enabled@.len() > 0),
        decreases n - i,
    {
        let ghost prev = enabled@;
        if names[i] == "VK_LAYER_KHRONOS_validation".to_owned() {
            if debug_layers && !supports_validation {
                let layer = "VK_LAYER_KHRONOS_validation".to_owned();
                enabled.push(layer);
                supports_validation = true;
                proof {
                    assert(string_views(enabled@) =~= string_views(prev).push(layer@));
                }
            }
        }
        i = i + 1;
    }
    (enabled, supports_validation)
}

/// The instance extensions chosen from those the loader reports.
pub struct InstanceExtensionSelection {
    pub enabled: Vec<String>,
    pub surface: bool,
    pub platform_surface: bool,
    pub debug_utils: bool,
}

fn is_platform_surface(name: &String) -> (r: bool)
    ensures
        r == is_platform_surface_name(name@),
{
    *name == "VK_KHR_wayland_surface".to_owned() || *name == "VK_KHR_xcb_surface".to_owned()
        || *name == "VK_KHR_xlib_surface".to_owned() || *name == "VK_KHR_android_surface".to_owned()
        || *name == "VK_KHR_win32_surface".to_owned()
}

/// Chooses the instance extensions from those the loader reports, in their
/// order: debug utils and the surface extension whenever reported, and the
/// first reported platform surface extension. The instance can only be created
/// when both `surface` and `platform_surface` come back set.
pub fn select_instance_extensions(names: &Vec<String>) -> (r: InstanceExtensionSelection)
    ensures
        string_views(r.enabled@) == extensions_upto(string_views(names@), names@.len()).enabled,
        r.surface == extensions_upto(string_views(names@), names@.len()).surface,
        r.platform_surface == extensions_upto(string_views(names@), names@.len()).platform_surface,
        r.debug_utils == extensions_upto(string_views(names@), names@.len()).debug_utils,
{
    let ghost v = string_views(names@);
    let n = names.len();
    let mut enabled: Vec<String> = Vec::new();
    let mut surface = false;
    let mut platform_surface = false;
    let mut debug_utils = false;
    let mut i: usize = 0;
    while i < n
        invariant
            n == names.len(),
            i <= n,
            v == string_views(names@),
            string_views(enabled@) == extensions_upto(v, i as nat).enabled,
            surface == extensions_upto(v, i as nat).surface,
            platform_surface == extensions_upto(v, i as nat).platform_surface,
            debug_utils == extensions_upto(v, i as nat).debug_utils,
        decreases n - i,
    {
        let ghost prev = enabled@;
        let name = &names[i];
        assert(v[i as int] == name@);
        if *name == "VK_EXT_debug_utils".to_owned() {
            let e = name.clone();
            enabled.push(e);
            debug_utils = true;
            assert(string_views(enabled@) =~= string_views(prev).push(name@));
        } else if *name == "VK_KHR_surface".to_owned() {
            let e = name.clone();
            enabled.push(e);
            surface = true;
            assert(string_views(enabled@) =~= string_views(prev).push(name@));
        } else if !platform_surface && is_platform_surface(name) {
            let e = name.clone();
            enabled.push(e);
            platform_surface = true;
            assert(string_views(enabled@) =~= string_views(prev).push(name@));
        }
        i = i + 1;
    }
    InstanceExtensionSelection { enabled, surface, platform_surface, debug_utils }
}

} // verus!
