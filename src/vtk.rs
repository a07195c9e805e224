//! Handles of the native rendering objects: the context, the device, its
//! windows and the shader modules created on it. The native layer owns the
//! objects; these types carry their handles.

use vstd::prelude::*;

verus! {

/// The native context that owns devices and windows and runs the event loop.
pub struct VtkContext {
    native_handle: u64,
}

/// A native rendering device.
pub struct VtkDevice {
    native_handle: u64,
}

/// A native window that frames are rendered into.
pub struct VtkWindow {
    native_handle: u64,
}

/// A shader module created on a device.
pub struct VtkShaderModule {
    vulkan_handle: u64,
}

impl VtkContext {
    pub closed spec fn spec_handle(&self) -> u64 {
        self.native_handle
    }

    pub fn from_native_handle(native_handle: u64) -> (r: VtkContext)
        ensures
            r.spec_handle() == native_handle,
    {
        VtkContext { native_handle }
    }

    pub fn native_handle(&self) -> (r: u64)
        ensures
            r == self.spec_handle(),
    {
        self.native_handle
    }
}

impl VtkDevice {
    pub closed spec fn spec_handle(&self) -> u64 {
        self.native_handle
    }

    pub fn from_native_handle(native_handle: u64) -> (r: VtkDevice)
        ensures
            r.spec_handle() == native_handle,
    {
        VtkDevice { native_handle }
    }

    pub fn native_handle(&self) -> (r: u64)
        ensures
            r == self.spec_handle(),
    {
        self.native_handle
    }
}

impl VtkWindow {
    pub closed spec fn spec_handle(&self) -> u64 {
        self.native_handle
    }

    pub fn from_native_handle(native_handle: u64) -> (r: VtkWindow)
        ensures
            r.spec_handle() == native_handle,
    {
        VtkWindow { native_handle }
    }

    pub fn native_handle(&self) -> (r: u64)
        ensures
            r == self.spec_handle(),
    {
        self.native_handle
    }
}

impl VtkShaderModule {
    pub closed spec fn spec_handle(&self) -> u64 {
        self.vulkan_handle
    }

    pub fn from_vulkan_handle(vulkan_handle: u64) -> (r: VtkShaderModule)
        ensures
            r.spec_handle() == vulkan_handle,
    {
        VtkShaderModule { vulkan_handle }
    }

    pub fn vulkan_handle(&self) -> (r: u64)
        ensures
            r == self.spec_handle(),
    {
        self.vulkan_handle
    }
}

} // verus!
