use vstd::prelude::*;

verus! {

/// The native loader's handle of a plugin library; zero stands for none.
pub type PluginLibraryHandle = usize;

/// Takes the handle the native loader returned for a plugin library: `None`
/// where it returned a null handle, that is where the library could not be
/// loaded.
pub fn load_library(raw: usize) -> (r: Option<PluginLibraryHandle>)
    ensures
        r == if raw == 0 {
            None::<PluginLibraryHandle>
        } else {
            Some(raw)
        },
{
    if raw == 0 {
        None
    } else {
        Some(raw)
    }
}

/// Whether `handle` is to be handed to the native unloader: a null handle
/// names no library, and unloading it would be an error.
pub fn unload_library(handle: PluginLibraryHandle) -> (r: bool)
    ensures
        r == (handle != 0),
{
    handle != 0
}

} // verus!
