//! What the kernel reads from the header of an application image in flash.
//! Finding and validating the header is not done here: the loader hands the
//! fields over as they were read.

use vstd::prelude::*;

verus! {

/// The fields of one validated image header.
#[derive(Debug)]
pub struct TbfHeader {
    /// The size of the whole image, header included, in bytes.
    pub total_size: u32,
    /// Whether the image holds an application, and is not mere padding.
    pub is_app: bool,
    /// Whether the application is to be started.
    pub enabled: bool,
    /// The least amount of RAM the application asks for, in bytes.
    pub minimum_app_ram_size: u32,
    /// Where the application's entry function lies, from the start of the
    /// image.
    pub init_function_offset: u32,
    /// The size of the protected region at the start of the image.
    pub protected_size: u32,
    /// The application's name.
    pub package_name: String,
    /// The regions of its image that the application may write, each by its
    /// offset from the start of the image and its size.
    pub writeable_flash_regions: Vec<(u32, u32)>,
}

impl TbfHeader {
    /// The size of the whole image in bytes.
    pub fn get_total_size(&self) -> (r: u32)
        ensures
            r == self.total_size,
    {
        self.total_size
    }

    /// Whether the image holds an application.
    pub fn is_app(&self) -> (r: bool)
        ensures
            r == self.is_app,
    {
        self.is_app
    }

    /// Whether the application is to be started.
    pub fn enabled(&self) -> (r: bool)
        ensures
            r == self.enabled,
    {
        self.enabled
    }

    /// The least amount of RAM the application asks for.
    pub fn get_minimum_app_ram_size(&self) -> (r: u32)
        ensures
            r == self.minimum_app_ram_size,
    {
        self.minimum_app_ram_size
    }

    /// The offset of the entry function.
    pub fn get_init_function_offset(&self) -> (r: u32)
        ensures
            r == self.init_function_offset,
    {
        self.init_function_offset
    }

    /// The size of the protected region.
    pub fn get_protected_size(&self) -> (r: u32)
        ensures
            r == self.protected_size,
    {
        self.protected_size
    }

    /// The application's name.
    pub fn get_package_name(&self) -> (r: &str)
        ensures
            r@ == self.package_name@,
    {
        self.package_name.as_str()
    }

    /// The region with the given index, or `(0, 0)` where there is none.
    pub open spec fn writeable_flash_region(&self, index: int) -> (u32, u32) {
        if 0 <= index < self.writeable_flash_regions@.len() {
            self.writeable_flash_regions@[index]
        } else {
            (0u32, 0u32)
        }
    }

    /// The number of writeable regions.
    pub fn number_writeable_flash_regions(&self) -> (r: usize)
        ensures
            r == self.writeable_flash_regions@.len(),
    {
        self.writeable_flash_regions.len()
    }

    /// The offset and size of the region with the given index; `(0, 0)`
    /// where there is no such region.
    pub fn get_writeable_flash_region(&self, index: usize) -> (r: (u32, u32))
        ensures
            r == self.writeable_flash_region(index as int),
    {
        if index < self.writeable_flash_regions.len() {
            self.writeable_flash_regions[index]
        } else {
            (0, 0)
        }
    }
}

} // verus!
